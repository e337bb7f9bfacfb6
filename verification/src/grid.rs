use vstd::prelude::*;

verus! {

/// The mark held by one cell of the board: one of the two player symbols,
/// or nothing yet.
#[derive(Clone, Copy, PartialEq, Eq, Structural, Debug)]
pub enum GridValue {
    X,
    O,
    Empty,
}

/// The other player's symbol; meaningful only for the two symbol variants.
pub open spec fn opponent(v: GridValue) -> GridValue {
    match v {
        GridValue::X => GridValue::O,
        GridValue::O => GridValue::X,
        GridValue::Empty => GridValue::Empty,
    }
}

impl GridValue {
    /// Swap the two player symbols. Inverting an empty marker is a
    /// programming error, so that input is ruled out up front.
    pub fn invert(self) -> (r: GridValue)
        requires
            self != GridValue::Empty,
        ensures
            r == opponent(self),
    {
        if self == GridValue::X {
            GridValue::O
        } else {
            GridValue::X
        }
    }
}

/// Toggling a player symbol twice returns the original symbol, and never
/// yields the player itself or the empty marker.
pub proof fn lemma_opponent_involutive(v: GridValue)
    requires
        v != GridValue::Empty,
    ensures
        opponent(opponent(v)) == v,
        opponent(v) != v,
        opponent(v) != GridValue::Empty,
{
}

/// A 3x3 grid of cell values, addressed by a flat index 0..9
/// (`index == row * 3 + column`).
pub struct Grid {
    pub grid: Vec<GridValue>,
}

impl View for Grid {
    type V = Seq<GridValue>;

    open spec fn view(&self) -> Seq<GridValue> {
        self.grid@
    }
}

impl Grid {
    /// A grid is well formed when it holds exactly 9 cells.
    pub open spec fn wf(&self) -> bool {
        self@.len() == 9
    }

    pub fn new() -> (r: Grid)
        ensures
            r.wf(),
            forall|i: int| 0 <= i < 9 ==> r@[i] == GridValue::Empty,
    {
        let mut cells: Vec<GridValue> = Vec::new();
        let mut i: usize = 0;
        while i < 9
            invariant
                i <= 9,
                cells@.len() == i,
                forall|j: int| 0 <= j < i ==> cells@[j] == GridValue::Empty,
            decreases 9 - i,
        {
            cells.push(GridValue::Empty);
            i = i + 1;
        }
        Grid { grid: cells }
    }

    /// Read one cell. An out-of-range index is a contract violation, never
    /// a recoverable error.
    pub fn get(&self, index: usize) -> (r: GridValue)
        requires
            self.wf(),
            index < 9,
        ensures
            r == self@[index as int],
    {
        self.grid[index]
    }

    /// Overwrite one cell. An out-of-range index is a contract violation;
    /// no cell other than the addressed one changes.
    pub fn set(&mut self, index: usize, value: GridValue)
        requires
            old(self).wf(),
            index < 9,
        ensures
            final(self).wf(),
            final(self)@ == old(self)@.update(index as int, value),
    {
        self.grid[index] = value;
    }
}

/// Writing one cell changes that cell to the written value and leaves every
/// other cell as it was.
pub proof fn lemma_set_is_local(s: Seq<GridValue>, i: int, v: GridValue)
    requires
        0 <= i < s.len(),
    ensures
        s.update(i, v)[i] == v,
        forall|j: int| 0 <= j < s.len() && j != i ==> s.update(i, v)[j] == s[j],
{
}

} // verus!

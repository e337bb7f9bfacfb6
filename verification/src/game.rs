use vstd::prelude::*;
use crate::grid::{Grid, GridValue, opponent};

verus! {

/// The outcome of a game, recomputed from the board after every move.
#[derive(Clone, Copy, PartialEq, Eq, Structural, Debug)]
pub enum GameState {
    Playing,
    Tie,
    Win(GridValue),
}

/// The winner of one line of three cells, if all three hold the same
/// player symbol.
pub open spec fn line_winner(s: Seq<GridValue>, a: int, b: int, c: int) -> Option<GridValue> {
    if s[a] != GridValue::Empty && s[a] == s[b] && s[b] == s[c] {
        Some(s[a])
    } else {
        None
    }
}

/// The cells of the k-th winning line, in the fixed checking order:
/// the three rows, the three columns, then the two diagonals.
pub open spec fn line_cells(k: int) -> (int, int, int) {
    if k == 0 {
        (0, 1, 2)
    } else if k == 1 {
        (3, 4, 5)
    } else if k == 2 {
        (6, 7, 8)
    } else if k == 3 {
        (0, 3, 6)
    } else if k == 4 {
        (1, 4, 7)
    } else if k == 5 {
        (2, 5, 8)
    } else if k == 6 {
        (0, 4, 8)
    } else {
        (2, 4, 6)
    }
}

/// The winner of the k-th line, if any.
pub open spec fn kth_line_winner(s: Seq<GridValue>, k: int) -> Option<GridValue> {
    line_winner(s, line_cells(k).0, line_cells(k).1, line_cells(k).2)
}

/// The verdict of the win evaluator: the winner of the first uniform,
/// non-empty line in the fixed checking order, or nothing.
pub open spec fn winner_of(s: Seq<GridValue>) -> Option<GridValue> {
    if kth_line_winner(s, 0) is Some {
        kth_line_winner(s, 0)
    } else if kth_line_winner(s, 1) is Some {
        kth_line_winner(s, 1)
    } else if kth_line_winner(s, 2) is Some {
        kth_line_winner(s, 2)
    } else if kth_line_winner(s, 3) is Some {
        kth_line_winner(s, 3)
    } else if kth_line_winner(s, 4) is Some {
        kth_line_winner(s, 4)
    } else if kth_line_winner(s, 5) is Some {
        kth_line_winner(s, 5)
    } else if kth_line_winner(s, 6) is Some {
        kth_line_winner(s, 6)
    } else {
        kth_line_winner(s, 7)
    }
}

/// True when none of the 9 cells is empty.
pub open spec fn board_full(s: Seq<GridValue>) -> bool {
    forall|i: int| 0 <= i < 9 ==> s[i] != GridValue::Empty
}

/// The game state that a board determines: a win if the evaluator finds
/// one, otherwise a tie on a full board, otherwise still playing.
pub open spec fn state_of(s: Seq<GridValue>) -> GameState {
    match winner_of(s) {
        Some(w) => GameState::Win(w),
        None => if board_full(s) {
            GameState::Tie
        } else {
            GameState::Playing
        },
    }
}

/// A board with no uniform, non-empty line has no winner.
pub proof fn lemma_no_uniform_line_no_winner(s: Seq<GridValue>)
    requires
        forall|k: int| 0 <= k < 8 ==> kth_line_winner(s, k) is None,
    ensures
        winner_of(s) is None,
{
}

/// The empty board has no winner.
pub proof fn lemma_empty_board_no_winner(s: Seq<GridValue>)
    requires
        s.len() == 9,
        forall|i: int| 0 <= i < 9 ==> s[i] == GridValue::Empty,
    ensures
        winner_of(s) is None,
{
    assert forall|k: int| 0 <= k < 8 implies kth_line_winner(s, k) is None by {
        let (a, b, c) = line_cells(k);
        assert(s[a] == GridValue::Empty);
    }
    lemma_no_uniform_line_no_winner(s);
}

/// If the k-th line uniformly holds symbol w and no earlier line in the
/// checking order is uniform and non-empty, the evaluator reports w.
pub proof fn lemma_first_uniform_line_wins(s: Seq<GridValue>, k: int, w: GridValue)
    requires
        0 <= k < 8,
        kth_line_winner(s, k) == Some(w),
        forall|j: int| 0 <= j < k ==> kth_line_winner(s, j) is None,
    ensures
        winner_of(s) == Some(w),
{
}

impl Grid {
    pub fn is_full(&self) -> (r: bool)
        requires
            self.wf(),
        ensures
            r == board_full(self@),
    {
        let mut i: usize = 0;
        while i < 9
            invariant
                self.wf(),
                i <= 9,
                forall|j: int| 0 <= j < i ==> self@[j] != GridValue::Empty,
            decreases 9 - i,
        {
            if self.get(i) == GridValue::Empty {
                return false;
            }
            i = i + 1;
        }
        true
    }

    /// One row of the grid, as three cell values.
    pub fn get_line(&self, index: usize) -> (r: Vec<GridValue>)
        requires
            self.wf(),
            index < 3,
        ensures
            r@ == self@.subrange(3 * index as int, 3 * index as int + 3),
    {
        let mut line: Vec<GridValue> = Vec::new();
        line.push(self.get(3 * index));
        line.push(self.get(3 * index + 1));
        line.push(self.get(3 * index + 2));
        proof {
            assert(line@ =~= self@.subrange(3 * index as int, 3 * index as int + 3));
        }
        line
    }

    /// The symbol filling all three addressed cells, if they agree and are
    /// not empty.
    pub fn is_filled_the_same(&self, index_0: usize, index_1: usize, index_2: usize) -> (r: Option<
        GridValue,
    >)
        requires
            self.wf(),
            index_0 < 9,
            index_1 < 9,
            index_2 < 9,
        ensures
            r == line_winner(self@, index_0 as int, index_1 as int, index_2 as int),
    {
        let v0 = self.get(index_0);
        let v1 = self.get(index_1);
        let v2 = self.get(index_2);
        if v0 != GridValue::Empty && v0 == v1 && v1 == v2 {
            Some(v0)
        } else {
            None
        }
    }
}

/// The game controller: the board and the player whose turn it is.
pub struct Game {
    pub grid: Grid,
    pub current_player: GridValue,
}

impl Game {
    /// A game is well formed when its grid is and its current player is one
    /// of the two symbols, never the empty marker.
    pub open spec fn wf(&self) -> bool {
        &&& self.grid.wf()
        &&& self.current_player != GridValue::Empty
    }

    /// A move request is allowed when it addresses a cell on the board and
    /// that cell is still empty.
    pub open spec fn move_allowed(&self, index: usize) -> bool {
        index < 9 && self.grid@[index as int] == GridValue::Empty
    }

    /// A fresh game: an empty board, the first player to move.
    pub fn new() -> (r: Game)
        ensures
            r.wf(),
            forall|i: int| 0 <= i < 9 ==> r.grid@[i] == GridValue::Empty,
            r.current_player == GridValue::X,
    {
        let grid = Grid::new();
        Game { grid, current_player: GridValue::X }
    }

    /// The win evaluator: the 8 lines are checked in a fixed order — rows,
    /// columns, then the two full-board diagonals (0,4,8) and (2,4,6) — and
    /// the first uniform, non-empty line decides.
    pub fn get_winner(&self) -> (r: Option<GridValue>)
        requires
            self.grid.wf(),
        ensures
            r == winner_of(self.grid@),
    {
        // By row
        let r = self.grid.is_filled_the_same(0, 1, 2);
        if r.is_some() {
            return r;
        }
        let r = self.grid.is_filled_the_same(3, 4, 5);
        if r.is_some() {
            return r;
        }
        let r = self.grid.is_filled_the_same(6, 7, 8);
        if r.is_some() {
            return r;
        }
        // By column
        let r = self.grid.is_filled_the_same(0, 3, 6);
        if r.is_some() {
            return r;
        }
        let r = self.grid.is_filled_the_same(1, 4, 7);
        if r.is_some() {
            return r;
        }
        let r = self.grid.is_filled_the_same(2, 5, 8);
        if r.is_some() {
            return r;
        }
        // By diagonal
        let r = self.grid.is_filled_the_same(0, 4, 8);
        if r.is_some() {
            return r;
        }
        self.grid.is_filled_the_same(2, 4, 6)
    }

    pub fn get_game_state(&self) -> (r: GameState)
        requires
            self.grid.wf(),
        ensures
            r == state_of(self.grid@),
    {
        if let Some(winner) = self.get_winner() {
            GameState::Win(winner)
        } else if self.grid.is_full() {
            GameState::Tie
        } else {
            GameState::Playing
        }
    }

    /// One turn of the controller, given a requested cell index. A request
    /// for an occupied or out-of-range cell is rejected and changes
    /// nothing; the caller re-requests. An allowed request marks the cell
    /// for the current player, evaluates the board, and toggles the player
    /// exactly when the game goes on.
    pub fn submit_move(&mut self, index: usize) -> (r: Option<GameState>)
        requires
            old(self).wf(),
        ensures
            final(self).wf(),
            r is Some <==> old(self).move_allowed(index),
            r is None ==> *final(self) == *old(self),
            r is Some ==> {
                &&& final(self).grid@ == old(self).grid@.update(
                    index as int,
                    old(self).current_player,
                )
                &&& r == Some(state_of(final(self).grid@))
                &&& (state_of(final(self).grid@) is Playing ==> final(self).current_player
                    == opponent(old(self).current_player))
                &&& (!(state_of(final(self).grid@) is Playing) ==> final(self).current_player
                    == old(self).current_player)
            },
    {
        if index < 9 && self.grid.get(index) == GridValue::Empty {
            let player = self.current_player;
            self.grid.set(index, player);
            let state = self.get_game_state();
            match state {
                GameState::Playing => {
                    self.current_player = self.current_player.invert();
                },
                _ => {},
            }
            Some(state)
        } else {
            None
        }
    }
}

} // verus!

use vstd::prelude::*;
use vstd::string::StringExecFns;
use crate::grid::{Grid, GridValue};

verus! {

/// The glyph shown for a cell value: the player's symbol, or a blank for
/// an empty cell.
pub open spec fn glyph(v: GridValue) -> Seq<char> {
    match v {
        GridValue::X => "X"@,
        GridValue::O => "O"@,
        GridValue::Empty => " "@,
    }
}

/// One row of the board as it is displayed: the three glyphs between
/// vertical rules.
pub open spec fn rendered_line(a: GridValue, b: GridValue, c: GridValue) -> Seq<char> {
    "│ "@ + glyph(a) + " │ "@ + glyph(b) + " │ "@ + glyph(c) + " │"@
}

/// The glyph as text, for display.
pub fn glyph_str(v: GridValue) -> (r: &'static str)
    ensures
        r@ == glyph(v),
{
    match v {
        GridValue::X => "X",
        GridValue::O => "O",
        GridValue::Empty => " ",
    }
}

/// Renders the board for the terminal.
pub struct GridDraw;

impl GridDraw {
    /// The text of one displayed row of the grid.
    pub fn draw_line(grid: &Grid, line_index: usize) -> (r: String)
        requires
            grid.wf(),
            line_index < 3,
        ensures
            r@ == rendered_line(
                grid@[3 * line_index as int],
                grid@[3 * line_index as int + 1],
                grid@[3 * line_index as int + 2],
            ),
    {
        let line = grid.get_line(line_index);

        let value_0 = line[0];
        let value_1 = line[1];
        let value_2 = line[2];

        let mut text = String::new();
        text.append("│ ");
        text.append(glyph_str(value_0));
        text.append(" │ ");
        text.append(glyph_str(value_1));
        text.append(" │ ");
        text.append(glyph_str(value_2));
        text.append(" │");
        proof {
            assert(text@ =~= rendered_line(
                grid@[3 * line_index as int],
                grid@[3 * line_index as int + 1],
                grid@[3 * line_index as int + 2],
            ));
        }
        text
    }
}

} // verus!

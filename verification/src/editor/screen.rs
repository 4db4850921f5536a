//! What the session draws, as sequences of screen operations.

use crate::editor::terminal::CommandView;
use vstd::prelude::*;

verus! {

/// The text that marks an empty line.
pub const FILLER: &'static str = "~";

/// The text that ends a line of the view.
pub const LINE_BREAK: &'static str = "\r\n";

/// The text that is shown when the session ends.
pub const FAREWELL: &'static str = "Goodbye.\r\n";

/// The printing of the filler.
pub open spec fn filler() -> CommandView {
    CommandView::Print(FILLER@)
}

/// The printing of a line break.
pub open spec fn line_break() -> CommandView {
    CommandView::Print(LINE_BREAK@)
}

/// Row `row` of the placeholder view for a viewport of `height` rows: the
/// filler, and after it a line break unless the row is the last.
pub open spec fn placeholder_row(height: nat, row: nat) -> Seq<CommandView> {
    if row + 1 == height {
        seq![filler()]
    } else {
        seq![filler(), line_break()]
    }
}

/// The first `count` rows of the placeholder view for a viewport of
/// `height` rows.
pub open spec fn placeholder_rows(height: nat, count: nat) -> Seq<CommandView>
    decreases count,
{
    if count == 0 {
        Seq::empty()
    } else {
        placeholder_rows(height, (count - 1) as nat) + placeholder_row(
            height,
            (count - 1) as nat,
        )
    }
}

/// The placeholder view for a viewport of `height` rows: every row holds the
/// filler, and no line break follows the last row.
pub open spec fn placeholder_view(height: nat) -> Seq<CommandView> {
    placeholder_rows(height, height)
}

/// What is drawn when the session ends: the screen is cleared and the
/// farewell is printed.
pub open spec fn farewell_view() -> Seq<CommandView> {
    seq![CommandView::ClearScreen, CommandView::Print(FAREWELL@)]
}

/// What one redraw queues. A session that is quitting draws the farewell,
/// whatever the viewport. A running session draws the placeholder view for a
/// viewport of `height` rows and puts the cursor back on the top left cell.
pub open spec fn redraw_view(should_quit: bool, height: nat) -> Seq<CommandView> {
    if should_quit {
        farewell_view()
    } else {
        placeholder_view(height).push(CommandView::MoveTo { column: 0, row: 0 })
    }
}

} // verus!

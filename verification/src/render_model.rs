//! The mathematical model of a redraw: which commands bring the screen from
//! the frame that is on it to the frame that was written.

use crate::command::{line_break, CommandView};
use crate::frame_model::{FrameView, RowView};
use crate::geometry::TerminalSize;
use crate::style::Token;
use vstd::prelude::*;

verus! {

/// The commands that write the tokens, one command each.
pub open spec fn paint(tokens: Seq<Token>) -> Seq<CommandView> {
    tokens.map_values(|t: Token| CommandView::WriteStyled(t))
}

/// The row at index `i`, if there is one.
pub open spec fn row_at(rows: Seq<RowView>, i: int) -> Option<RowView> {
    if 0 <= i < rows.len() {
        Some(rows[i])
    } else {
        None
    }
}

/// What is done to one row of the screen between going to its first column
/// and advancing to the next line. A row that both frames have is left
/// alone if the hashes agree, and is written and cleared behind what was
/// written if they differ. A row that only the frame on screen has is
/// cleared. A row that only the new frame has is written.
pub open spec fn row_change(last: Option<RowView>, current: Option<RowView>) -> Seq<CommandView> {
    match (last, current) {
        (Some(l), Some(c)) => if l.hash != c.hash {
            paint(c.tokens).push(CommandView::ClearUntilNewLine)
        } else {
            Seq::empty()
        },
        (Some(_), None) => seq![CommandView::ClearCurrentLine],
        (None, Some(c)) => paint(c.tokens),
        (None, None) => Seq::empty(),
    }
}

/// The commands for one row of the screen: go to the first column, change
/// the row as far as needed, advance to the next line.
pub open spec fn row_commands(last: Option<RowView>, current: Option<RowView>) -> Seq<CommandView> {
    seq![CommandView::CursorMoveToColumn(0)] + row_change(last, current) + seq![
        CommandView::Write(line_break()),
    ]
}

/// The commands for the first `n` rows of the screen, from the top.
pub open spec fn rows_commands(last: Seq<RowView>, current: Seq<RowView>, n: nat) -> Seq<CommandView>
    decreases n,
{
    if n == 0 {
        Seq::empty()
    } else {
        rows_commands(last, current, (n - 1) as nat) + row_commands(
            row_at(last, n - 1),
            row_at(current, n - 1),
        )
    }
}

/// The larger of two numbers of rows.
pub open spec fn max_rows(a: nat, b: nat) -> nat {
    if a < b {
        b
    } else {
        a
    }
}

/// The commands of a redraw: go up by the row of the cursor of the frame on
/// screen, handle every row that either frame has, flush.
pub open spec fn commit_commands(last: FrameView, current: FrameView) -> Seq<CommandView> {
    seq![CommandView::CursorUp(last.cursor.row)] + rows_commands(
        last.rows,
        current.rows,
        max_rows(last.rows.len(), current.rows.len()),
    ) + seq![CommandView::Flush]
}

/// The command that moves the cursor from row `from` to row `to`, if they
/// differ.
pub open spec fn vertical_move(from: u16, to: u16) -> Seq<CommandView> {
    if to > from {
        seq![CommandView::CursorDown((to - from) as u16)]
    } else if to < from {
        seq![CommandView::CursorUp((from - to) as u16)]
    } else {
        Seq::empty()
    }
}

/// The commands that bring the cursor from where it stands to the first
/// column of the row below the last row of the frame.
pub open spec fn end_position_commands(frame: FrameView) -> Seq<CommandView> {
    seq![CommandView::CursorMoveToColumn(0)] + vertical_move(
        frame.cursor.row,
        frame.frame_size.height,
    )
}

/// The commands that show the cursor at the place that the frame marks:
/// none without a mark; else a move to the row and the column of the mark,
/// the command to show the cursor, and a flush.
pub open spec fn placement_commands(frame: FrameView) -> Seq<CommandView> {
    match frame.expected_cursor {
        None => Seq::empty(),
        Some(p) => vertical_move(frame.cursor.row, p.row) + seq![
            CommandView::CursorMoveToColumn(p.col),
            CommandView::CursorShow,
            CommandView::Flush,
        ],
    }
}

/// The frame after the cursor was shown at the place that it marks: the
/// cursor stands there.
pub open spec fn placed(frame: FrameView) -> FrameView {
    match frame.expected_cursor {
        None => frame,
        Some(p) => FrameView { cursor: p, ..frame },
    }
}

/// What a render box says: the frame that is on screen, and the frame that
/// is being written.
pub struct RenderBoxView {
    pub last: FrameView,
    pub current: FrameView,
}

impl RenderBoxView {
    /// Both frames are well formed.
    pub open spec fn wf(self) -> bool {
        self.last.wf() && self.current.wf()
    }

    /// The box made ready for a redraw on a terminal of the given size: the
    /// frame on screen is fitted to that size, and the frame that was
    /// written is finished. Neither takes the place of the other yet.
    pub open spec fn finished(self, size: TerminalSize) -> RenderBoxView {
        RenderBoxView { last: self.last.fit(size), current: self.current.finish() }
    }

    /// The box after a redraw was carried out: the frame that was written
    /// is the frame on screen, and an empty frame of the given size is the
    /// one to write next.
    pub open spec fn swapped(self, size: TerminalSize) -> RenderBoxView {
        RenderBoxView { last: self.current, current: FrameView::fresh(size) }
    }
}

} // verus!

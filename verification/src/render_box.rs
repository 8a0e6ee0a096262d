//! The render box: the frame that is on screen, the frame that is being
//! written, and the redraw that brings the screen from the one to the other.

use crate::command::{commands_of, line_advance, line_break, CommandView, TerminalCommand};
use crate::frame::{rows_of, tokens_of, FrameRow, FrameState};
use crate::frame_model::FrameView;
use crate::geometry::TerminalSize;
use crate::render_model::{
    commit_commands, end_position_commands, max_rows, paint, placed, placement_commands,
    row_commands, rows_commands, RenderBoxView,
};
use crate::style::{StyleSheet, Styled};
use vstd::prelude::*;

verus! {

/// Appends one command for each token, to write it in its style.
pub fn push_paint(commands: &mut Vec<TerminalCommand>, tokens: &[Styled])
    ensures
        commands_of(final(commands)@) == commands_of(old(commands)@) + paint(tokens_of(tokens@)),
{
    let mut i: usize = 0;
    while i < tokens.len()
        invariant
            i <= tokens.len(),
            commands_of(commands@) == commands_of(old(commands)@) + paint(
                tokens_of(tokens@),
            ).take(i as int),
        decreases tokens.len() - i,
    {
        let ghost before = commands_of(commands@);
        commands.push(TerminalCommand::WriteStyled(tokens[i].duplicate()));
        assert(commands_of(commands@) =~= before.push(paint(tokens_of(tokens@))[i as int]));
        i = i + 1;
    }
}

/// Appends the commands for one row of the screen: to its first column, the
/// change that the row needs, and on to the next line.
pub fn push_row_commands(
    commands: &mut Vec<TerminalCommand>,
    last: Option<&FrameRow>,
    current: Option<&FrameRow>,
)
    ensures
        commands_of(final(commands)@) == commands_of(old(commands)@) + row_commands(
            match last {
                Some(row) => Some(row@),
                None => None,
            },
            match current {
                Some(row) => Some(row@),
                None => None,
            },
        ),
{
    commands.push(TerminalCommand::CursorMoveToColumn(0));
    match (last, current) {
        (Some(last_row), Some(current_row)) => {
            if last_row.hash() != current_row.hash() {
                push_paint(commands, current_row.get_content());
                let ghost painted = commands_of(commands@);
                commands.push(TerminalCommand::ClearUntilNewLine);
                assert(commands_of(commands@) =~= painted.push(CommandView::ClearUntilNewLine));
            }
        },
        (Some(_), None) => {
            commands.push(TerminalCommand::ClearCurrentLine);
        },
        (None, Some(current_row)) => {
            push_paint(commands, current_row.get_content());
        },
        (None, None) => {},
    }
    let ghost changed = commands_of(commands@);
    commands.push(line_advance());
    assert(commands_of(commands@) =~= changed.push(CommandView::Write(line_break())));
}

/// The frame that is on screen and the frame that is being written.
pub struct UntitledRenderBoxAbstraction {
    last_rendered_frame: FrameState,
    current_frame: FrameState,
}

impl View for UntitledRenderBoxAbstraction {
    type V = RenderBoxView;

    closed spec fn view(&self) -> RenderBoxView {
        RenderBoxView { last: self.last_rendered_frame@, current: self.current_frame@ }
    }
}

impl UntitledRenderBoxAbstraction {
    /// A render box for a terminal of the given size, with nothing on
    /// screen and nothing written.
    pub fn new(terminal_size: TerminalSize) -> (render_box: Self)
        ensures
            render_box@ == (RenderBoxView {
                last: FrameView::fresh(terminal_size),
                current: FrameView::fresh(terminal_size),
            }),
            render_box@.wf(),
    {
        UntitledRenderBoxAbstraction {
            last_rendered_frame: FrameState::new(terminal_size),
            current_frame: FrameState::new(terminal_size),
        }
    }

    /// The frame that is on screen.
    pub fn last_rendered_frame(&self) -> (frame: &FrameState)
        ensures
            frame@ == self@.last,
    {
        &self.last_rendered_frame
    }

    /// The frame that is being written.
    pub fn current_frame(&self) -> (frame: &FrameState)
        ensures
            frame@ == self@.current,
    {
        &self.current_frame
    }

    /// Writes a text without style into the frame that is being written.
    pub fn write(&mut self, value: &str)
        ensures
            final(self)@ == (RenderBoxView {
                current: old(self)@.current.write(value@, StyleSheet::spec_empty()),
                ..old(self)@
            }),
            old(self)@.wf() ==> final(self)@.wf(),
    {
        let token = Styled::new(value);
        self.write_styled(&token);
    }

    /// Writes a styled text into the frame that is being written.
    pub fn write_styled(&mut self, value: &Styled)
        ensures
            final(self)@ == (RenderBoxView {
                current: old(self)@.current.write(value@.text, value@.style),
                ..old(self)@
            }),
            old(self)@.wf() ==> final(self)@.wf(),
    {
        self.current_frame.write(value);
    }

    /// Marks the place `offset` columns after the cursor of the frame that
    /// is being written as the place where the cursor is to be shown.
    pub fn mark_cursor_position(&mut self, offset: isize)
        ensures
            final(self)@ == (RenderBoxView {
                current: old(self)@.current.mark_cursor(offset),
                ..old(self)@
            }),
            old(self)@.wf() ==> final(self)@.wf(),
    {
        self.current_frame.mark_cursor_position(offset);
    }

    /// The command that shows the cursor.
    pub fn show_cursor(&self) -> (command: TerminalCommand)
        ensures
            command@ == CommandView::CursorShow,
    {
        TerminalCommand::CursorShow
    }

    /// The command that hides the cursor.
    pub fn hide_cursor(&self) -> (command: TerminalCommand)
        ensures
            command@ == CommandView::CursorHide,
    {
        TerminalCommand::CursorHide
    }

    /// The command that sends what was written to the screen.
    pub fn flush(&self) -> (command: TerminalCommand)
        ensures
            command@ == CommandView::Flush,
    {
        TerminalCommand::Flush
    }

    /// Prepares the redraw: fits the frame on screen to the size that the
    /// terminal has now, finishes the frame that was written, and hands out
    /// the commands that change the rows whose hashes differ and no others.
    /// The frame on screen stays the frame on screen until `swap_frames`
    /// says that the commands were carried out; a redraw that failed on the
    /// way leaves it in its place.
    pub fn finish_current_frame(&mut self, terminal_size: TerminalSize) -> (commands: Vec<
        TerminalCommand,
    >)
        ensures
            commands_of(commands@) == commit_commands(
                old(self)@.last.fit(terminal_size),
                old(self)@.current.finish(),
            ),
            final(self)@ == old(self)@.finished(terminal_size),
            old(self)@.wf() ==> final(self)@.wf(),
    {
        self.last_rendered_frame.fit_to_terminal(terminal_size);
        self.current_frame.finish();
        let ghost last = self.last_rendered_frame@;
        let ghost current = self.current_frame@;
        let last_rows = self.last_rendered_frame.finished_rows();
        let current_rows = self.current_frame.finished_rows();
        let rows_to_iterate = if last_rows.len() < current_rows.len() {
            current_rows.len()
        } else {
            last_rows.len()
        };
        let mut commands: Vec<TerminalCommand> = Vec::new();
        commands.push(TerminalCommand::CursorUp(self.last_rendered_frame.cursor_position().row));
        let mut i: usize = 0;
        while i < rows_to_iterate
            invariant
                i <= rows_to_iterate,
                rows_to_iterate == max_rows(last.rows.len(), current.rows.len()),
                rows_of(last_rows@) == last.rows,
                rows_of(current_rows@) == current.rows,
                commands_of(commands@) == seq![CommandView::CursorUp(last.cursor.row)]
                    + rows_commands(last.rows, current.rows, i as nat),
            decreases rows_to_iterate - i,
        {
            let last_row = if i < last_rows.len() {
                Some(&last_rows[i])
            } else {
                None
            };
            let current_row = if i < current_rows.len() {
                Some(&current_rows[i])
            } else {
                None
            };
            push_row_commands(&mut commands, last_row, current_row);
            i = i + 1;
        }
        commands.push(TerminalCommand::Flush);
        commands
    }

    /// Ends a redraw whose commands were carried out: the frame that was
    /// written becomes the frame on screen, and an empty frame of the given
    /// size is the one to write next.
    pub fn swap_frames(&mut self, terminal_size: TerminalSize)
        ensures
            final(self)@ == old(self)@.swapped(terminal_size),
            old(self)@.current.wf() ==> final(self)@.wf(),
    {
        let mut finished = FrameState::new(terminal_size);
        std::mem::swap(&mut self.current_frame, &mut finished);
        self.last_rendered_frame = finished;
    }

    /// The commands that show the cursor at the place that the frame that
    /// was written marks, if it marks one.
    pub fn placement_commands(&self) -> (commands: Vec<TerminalCommand>)
        ensures
            commands_of(commands@) == placement_commands(self@.current),
    {
        self.current_frame.placement_commands()
    }

    /// Takes note that the cursor was shown at the place that the frame on
    /// screen marks, if it marks one: the cursor stands there.
    pub fn settle_cursor(&mut self)
        ensures
            final(self)@ == (RenderBoxView { last: placed(old(self)@.last), ..old(self)@ }),
            old(self)@.wf() ==> final(self)@.wf(),
    {
        self.last_rendered_frame.settle_cursor();
    }

    /// Fits the frame on screen to the size that the terminal has now, and
    /// hands out the commands that bring the cursor to the first column of
    /// the row below its last row.
    pub fn move_cursor_to_end_position(&mut self, terminal_size: TerminalSize) -> (commands: Vec<
        TerminalCommand,
    >)
        ensures
            commands_of(commands@) == end_position_commands(old(self)@.last.fit(terminal_size)),
            final(self)@ == (RenderBoxView {
                last: old(self)@.last.fit(terminal_size),
                ..old(self)@
            }),
            old(self)@.wf() ==> final(self)@.wf(),
    {
        self.last_rendered_frame.fit_to_terminal(terminal_size);
        self.last_rendered_frame.end_position_commands()
    }
}

} // verus!

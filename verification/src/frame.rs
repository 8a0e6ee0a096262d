//! Frames: rows of styled tokens as they are written for one redraw.

use crate::command::{commands_of, TerminalCommand};
use crate::frame_model::{FrameView, RowView};
use crate::frame_proofs::{
    lemma_commit_row_in_step, lemma_fresh_wf, lemma_write_units_wf,
};
use crate::geometry::{Dimension, Position, TerminalSize};
use crate::hasher::{digest, feed_char, feed_escape, hasher_state, new_hasher};
use crate::render_model::{end_position_commands, placed, placement_commands, vertical_move};
use crate::style::{spec_style_code, style_code, StyleSheet, Styled, Token};
use crate::units::{units_of, visual_units, well_split, VisualUnit};
use fxhash::FxHasher64;
use vstd::prelude::*;

verus! {

/// What a list of styled tokens says, token by token.
pub open spec fn tokens_of(v: Seq<Styled>) -> Seq<Token> {
    v.map_values(|t: Styled| t@)
}

/// A finished row: its tokens, and a hash of what they show.
#[derive(Debug)]
pub struct FrameRow {
    content: Vec<Styled>,
    hash: u64,
}

impl View for FrameRow {
    type V = RowView;

    closed spec fn view(&self) -> RowView {
        RowView { tokens: tokens_of(self.content@), hash: self.hash }
    }
}

/// What a list of rows says, row by row.
pub open spec fn rows_of(v: Seq<FrameRow>) -> Seq<RowView> {
    v.map_values(|r: FrameRow| r@)
}

impl FrameRow {
    /// A row of the given tokens with the given hash.
    pub fn new(content: Vec<Styled>, hash: u64) -> (row: FrameRow)
        ensures
            row@ == (RowView { tokens: tokens_of(content@), hash }),
    {
        FrameRow { content, hash }
    }

    /// The tokens of the row.
    pub fn get_content(&self) -> (content: &[Styled])
        ensures
            tokens_of(content@) == self@.tokens,
    {
        self.content.as_slice()
    }

    /// The hash of the row.
    pub fn hash(&self) -> (hash: u64)
        ensures
            hash == self@.hash,
    {
        self.hash
    }
}

impl Default for FrameRow {
    /// The row without tokens, with hash zero.
    fn default() -> (row: FrameRow)
        ensures
            row@ == (RowView { tokens: Seq::empty(), hash: 0 }),
    {
        let row = FrameRow { content: Vec::new(), hash: 0 };
        assert(tokens_of(row.content@) == Seq::<Token>::empty());
        row
    }
}

/// One frame: the rows written so far, the row that is being written, the
/// cursor, and the terminal size that all of it was laid out for.
pub struct FrameState {
    terminal_size: TerminalSize,
    frame_size: Dimension,
    cursor_position: Position,
    expected_cursor_position: Option<Position>,
    finished_rows: Vec<FrameRow>,
    current_styled: Styled,
    current_line: Vec<Styled>,
    current_line_hasher: FxHasher64,
}

impl View for FrameState {
    type V = FrameView;

    closed spec fn view(&self) -> FrameView {
        FrameView {
            terminal_size: self.terminal_size,
            frame_size: self.frame_size,
            cursor: self.cursor_position,
            expected_cursor: self.expected_cursor_position,
            rows: rows_of(self.finished_rows@),
            pending: tokens_of(self.current_line@),
            current: self.current_styled@,
            hash_state: hasher_state(self.current_line_hasher),
        }
    }
}

impl FrameState {
    /// The empty frame for a terminal of the given size.
    pub fn new(terminal_size: TerminalSize) -> (frame: FrameState)
        ensures
            frame@ == FrameView::fresh(terminal_size),
            frame@.wf(),
    {
        let frame = FrameState {
            terminal_size,
            frame_size: Dimension::new(0, 0),
            cursor_position: Position { row: 0, col: 0 },
            expected_cursor_position: None,
            finished_rows: Vec::new(),
            current_styled: Styled { content: String::new(), style: StyleSheet::new() },
            current_line: Vec::new(),
            current_line_hasher: new_hasher(),
        };
        proof {
            assert(frame@.rows == Seq::<RowView>::empty());
            assert(frame@.pending == Seq::<Token>::empty());
            lemma_fresh_wf(terminal_size);
        }
        frame
    }

    /// Size of the terminal that the frame is laid out for.
    pub fn terminal_size(&self) -> (size: TerminalSize)
        ensures
            size == self@.terminal_size,
    {
        self.terminal_size
    }

    /// Extent of the finished rows.
    pub fn frame_size(&self) -> (size: Dimension)
        ensures
            size == self@.frame_size,
    {
        self.frame_size
    }

    /// Where the cursor stands after all that was written.
    pub fn cursor_position(&self) -> (position: Position)
        ensures
            position == self@.cursor,
    {
        self.cursor_position
    }

    /// Where the caller wants the cursor to be shown, if anywhere.
    pub fn expected_cursor_position(&self) -> (position: Option<Position>)
        ensures
            position == self@.expected_cursor,
    {
        self.expected_cursor_position
    }

    /// The finished rows, from the top.
    pub fn finished_rows(&self) -> (rows: &Vec<FrameRow>)
        ensures
            rows_of(rows@) == self@.rows,
    {
        &self.finished_rows
    }

    /// Closes the row that is being written, if it holds anything.
    fn finish_line(&mut self)
        ensures
            final(self)@ == old(self)@.commit_row(),
    {
        self.close_line(false);
    }

    /// Breaks the line: closes the row that is being written, be it blank.
    fn break_line(&mut self)
        ensures
            final(self)@ == old(self)@.break_line(),
    {
        self.close_line(true);
    }

    /// Closes the row that is being written; a row without tokens only
    /// where blank rows are asked for.
    fn close_line(&mut self, blank_rows: bool)
        ensures
            final(self)@ == if blank_rows {
                old(self)@.break_line()
            } else {
                old(self)@.commit_row()
            },
    {
        let style = self.current_styled.style;
        let mut closing = Styled { content: String::new(), style };
        std::mem::swap(&mut self.current_styled, &mut closing);
        if !closing.content.as_str().is_empty() || !style.is_empty() {
            self.current_line.push(closing);
        }
        let hash = digest(&self.current_line_hasher);
        self.current_line_hasher = new_hasher();
        let mut content: Vec<Styled> = Vec::new();
        std::mem::swap(&mut self.current_line, &mut content);
        proof {
            assert(tokens_of(content@) =~= old(self)@.closing_tokens());
            assert(self@.pending =~= Seq::<Token>::empty());
        }
        if content.len() == 0 && !blank_rows {
            proof {
                assert(old(self)@.pending =~= Seq::<Token>::empty());
            }
            return ;
        }
        let width = if self.frame_size.width < self.cursor_position.col {
            self.cursor_position.col
        } else {
            self.frame_size.width
        };
        self.frame_size = Dimension::new(width, self.frame_size.height.saturating_add(1));
        self.cursor_position = Position {
            row: self.cursor_position.row.saturating_add(1),
            col: 0,
        };
        let row = FrameRow::new(content, hash);
        self.finished_rows.push(row);
        proof {
            assert(self@.rows =~= old(self)@.rows.push(row@));
        }
    }

    /// Writes the units in the given style, as `FrameView::write_units`
    /// says: escape sequences are kept and take no column, a line break
    /// ends the row, be it blank, and a character that no longer fits
    /// closes the row before it is placed. The frame stays well formed if
    /// the units are well split, as the visual units of a text are.
    pub fn write_units(&mut self, units: &Vec<VisualUnit>, style: StyleSheet)
        ensures
            final(self)@ == old(self)@.write_units(units_of(units@), style),
            old(self)@.wf() && well_split(units_of(units@)) ==> final(self)@.wf(),
    {
        if units.len() == 0 {
            return ;
        }
        let ghost all = units_of(units@);
        self.current_styled.style = style;
        let ghost start = self@;
        let code = style_code(style);
        let mut i: usize = 0;
        while i < units.len()
            invariant
                i <= units.len(),
                all == units_of(units@),
                code == spec_style_code(style),
                self@.current.style == style,
                self@ == start.put_all(all.take(i as int)),
            decreases units.len() - i,
        {
            let ghost before = self@;
            proof {
                assert(all.take(i + 1).drop_last() == all.take(i as int));
            }
            match &units[i] {
                VisualUnit::Control { sequence } => {
                    self.current_styled.content.append(sequence.as_str());
                    feed_escape(&mut self.current_line_hasher, sequence.as_str(), code);
                    assert(self@ == before.append(units[i as int]@));
                },
                VisualUnit::Printable { ch, width } => {
                    assert((seq![*ch] == seq!['\n']) == (*ch == '\n'));
                    if *ch == '\n' {
                        self.break_line();
                    } else {
                        let remaining = if self.terminal_size.width < self.cursor_position.col {
                            0
                        } else {
                            self.terminal_size.width - self.cursor_position.col
                        };
                        if *width > remaining {
                            self.finish_line();
                        }
                        let ghost base = self@;
                        self.current_styled.content.push(*ch);
                        self.cursor_position.col = self.cursor_position.col.saturating_add(*width);
                        feed_char(&mut self.current_line_hasher, *ch, code);
                        proof {
                            let unit = units[i as int]@;
                            assert(base.current.text.push(*ch) =~= base.current.text + unit.text);
                        }
                    }
                },
            }
            i = i + 1;
        }
        assert(all.take(units.len() as int) == all);
        if !self.current_styled.content.as_str().is_empty() {
            let mut done = Styled { content: String::new(), style: StyleSheet::new() };
            std::mem::swap(&mut self.current_styled, &mut done);
            self.current_line.push(done);
            assert(self@.pending =~= start.put_all(all).pending.push(start.put_all(all).current));
        }
        proof {
            if old(self)@.wf() && well_split(all) {
                lemma_write_units_wf(old(self)@, all, style);
            }
        }
    }

    /// Writes a styled text: its visual units, in its style.
    pub fn write(&mut self, value: &Styled)
        ensures
            final(self)@ == old(self)@.write(value@.text, value@.style),
            old(self)@.wf() ==> final(self)@.wf(),
    {
        let units = visual_units(value.content.as_str());
        self.write_units(&units, value.style);
    }

    /// Writes the tokens one after the other.
    pub fn write_all(&mut self, tokens: &[Styled])
        ensures
            final(self)@ == old(self)@.write_tokens(tokens_of(tokens@)),
            old(self)@.wf() ==> final(self)@.wf(),
    {
        let ghost all = tokens_of(tokens@);
        let mut i: usize = 0;
        while i < tokens.len()
            invariant
                i <= tokens.len(),
                all == tokens_of(tokens@),
                old(self)@.wf() ==> self@.wf(),
                self@ == old(self)@.write_tokens(all.take(i as int)),
            decreases tokens.len() - i,
        {
            proof {
                assert(all.take(i + 1).drop_last() == all.take(i as int));
            }
            self.write(&tokens[i]);
            i = i + 1;
        }
        assert(all.take(tokens.len() as int) == all);
    }

    /// Marks the place `offset` columns after the cursor as the place where
    /// the cursor is to be shown: as many rows further down as the terminal
    /// width goes into the column, and in the column that is left.
    pub fn mark_cursor_position(&mut self, offset: isize)
        ensures
            final(self)@ == old(self)@.mark_cursor(offset),
            old(self)@.wf() ==> final(self)@.wf(),
    {
        let columns: u16 = #[verifier::truncate] (offset as u16);
        let col = self.cursor_position.col.saturating_add(columns);
        let width = self.terminal_size.width;
        let expected = if width == 0 {
            Position { row: self.cursor_position.row.saturating_add(1), col }
        } else {
            Position {
                row: self.cursor_position.row.saturating_add(col / width),
                col: col % width,
            }
        };
        self.expected_cursor_position = Some(expected);
    }

    /// Finishes the frame: closes the row that is being written, if it holds
    /// anything, so that it counts among the rows of the frame.
    pub fn finish(&mut self)
        ensures
            final(self)@ == old(self)@.finish(),
            old(self)@.wf() ==> final(self)@.wf(),
    {
        proof {
            if self@.wf() {
                lemma_commit_row_in_step(self@);
            }
        }
        self.finish_line();
    }

    /// The commands that bring the cursor from where it stands to the first
    /// column of the row below the last row of the frame.
    pub fn end_position_commands(&self) -> (commands: Vec<TerminalCommand>)
        ensures
            commands_of(commands@) == end_position_commands(self@),
    {
        let mut commands: Vec<TerminalCommand> = Vec::new();
        commands.push(TerminalCommand::CursorMoveToColumn(0));
        push_vertical_move(&mut commands, self.cursor_position.row, self.frame_size.height());
        commands
    }

    /// The commands that show the cursor at the place that the frame
    /// marks: none without a mark; with one, a move from where the cursor
    /// stands to the mark, the command to show the cursor, and a flush.
    pub fn placement_commands(&self) -> (commands: Vec<TerminalCommand>)
        ensures
            commands_of(commands@) == placement_commands(self@),
    {
        let mut commands: Vec<TerminalCommand> = Vec::new();
        match self.expected_cursor_position {
            None => {
            },
            Some(mark) => {
                push_vertical_move(&mut commands, self.cursor_position.row, mark.row);
                commands.push(TerminalCommand::CursorMoveToColumn(mark.col));
                commands.push(TerminalCommand::CursorShow);
                commands.push(TerminalCommand::Flush);
            },
        }
        commands
    }

    /// Takes note that the cursor was shown at the place that the frame
    /// marks: with a mark, the cursor of the frame stands there from now on.
    pub fn settle_cursor(&mut self)
        ensures
            final(self)@ == placed(old(self)@),
            old(self)@.wf() ==> final(self)@.wf(),
    {
        match self.expected_cursor_position {
            None => {
            },
            Some(mark) => {
                self.cursor_position = mark;
            },
        }
    }

    /// Fits the frame to a terminal of the given size. A frame that still
    /// fits keeps its rows. Any other frame is written anew: all its tokens
    /// go through `write` again, into an empty frame of the new size.
    pub fn fit_to_terminal(&mut self, new_size: TerminalSize)
        ensures
            final(self)@ == old(self)@.fit(new_size),
            old(self)@.wf() || !old(self)@.fits(new_size) ==> final(self)@.wf(),
    {
        if new_size.width() >= self.frame_size.width() && new_size.height()
            >= self.frame_size.height() {
            self.terminal_size = new_size;
            return ;
        }
        let mut new_state = FrameState::new(new_size);
        let ghost rows = self@.rows;
        let mut i: usize = 0;
        while i < self.finished_rows.len()
            invariant
                i <= self.finished_rows.len(),
                rows == rows_of(self.finished_rows@),
                new_state@.wf(),
                new_state@ == FrameView::fresh(new_size).write_rows(rows.take(i as int)),
            decreases self.finished_rows.len() - i,
        {
            proof {
                assert(rows.take(i + 1).drop_last() == rows.take(i as int));
            }
            new_state.write_all(self.finished_rows[i].get_content());
            i = i + 1;
        }
        assert(rows.take(self.finished_rows.len() as int) == rows);
        new_state.write_all(self.current_line.as_slice());
        *self = new_state;
    }
}

/// Appends the command that moves the cursor from row `from` to row `to`,
/// if they differ.
pub fn push_vertical_move(commands: &mut Vec<TerminalCommand>, from: u16, to: u16)
    ensures
        commands_of(final(commands)@) == commands_of(old(commands)@) + vertical_move(from, to),
{
    if to > from {
        commands.push(TerminalCommand::CursorDown(to - from));
    } else if to < from {
        commands.push(TerminalCommand::CursorUp(from - to));
    }
}

} // verus!

//! The mathematical model of a frame: what it holds and how writing,
//! closing rows, marking the cursor and fitting to another terminal size
//! change it.

use crate::ansi::{pieces, Piece};
use crate::geometry::{Dimension, Position, TerminalSize};
use crate::hasher::{absorb_piece, absorb_tokens, row_digest};
use crate::style::{spec_style_code, StyleSheet, Token};
use crate::units::{spec_visual_units, Unit};
use vstd::prelude::*;

verus! {

/// What a finished row says: its tokens and the hash of what they show.
pub struct RowView {
    pub tokens: Seq<Token>,
    pub hash: u64,
}

/// What a frame says.
pub struct FrameView {
    /// Size of the terminal that the frame was written for.
    pub terminal_size: TerminalSize,
    /// Extent of the finished rows: the widest column reached, and their
    /// number.
    pub frame_size: Dimension,
    /// Where the cursor stands after all that was written.
    pub cursor: Position,
    /// Where the caller wants the cursor to be shown, if anywhere.
    pub expected_cursor: Option<Position>,
    /// The finished rows, from the top.
    pub rows: Seq<RowView>,
    /// The finished tokens of the row that is being written.
    pub pending: Seq<Token>,
    /// The token that is being written. Between two writes it has no text,
    /// and its style is the style that the last write left behind.
    pub current: Token,
    /// State of the hash of the row that is being written.
    pub hash_state: u64,
}

/// Whether the piece is a line break: the line-break character, outside
/// any escape sequence.
pub open spec fn is_line_break(piece: Piece) -> bool {
    !piece.escape && piece.text == seq!['\n']
}

/// Whether no piece of the text is a line break.
pub open spec fn unbroken(text: Seq<char>) -> bool {
    forall|k: int| 0 <= k < pieces(text).len() ==> !is_line_break(#[trigger] pieces(text)[k])
}

/// Whether no token holds a line break.
pub open spec fn tokens_unbroken(tokens: Seq<Token>) -> bool {
    forall|i: int| 0 <= i < tokens.len() ==> unbroken((#[trigger] tokens[i]).text)
}

/// `a + b`, and the largest `u16` where the sum is larger.
pub open spec fn sat_add(a: u16, b: u16) -> u16 {
    if a + b > u16::MAX {
        u16::MAX
    } else {
        (a + b) as u16
    }
}

/// `a - b`, and zero where `b` is larger.
pub open spec fn sat_sub(a: u16, b: u16) -> u16 {
    if a < b {
        0
    } else {
        (a - b) as u16
    }
}

/// The larger of two numbers.
pub open spec fn max16(a: u16, b: u16) -> u16 {
    if a < b {
        b
    } else {
        a
    }
}

/// A number of rows as a `u16`, and the largest `u16` where it does not fit.
pub open spec fn clip16(n: nat) -> u16 {
    if n > u16::MAX {
        u16::MAX
    } else {
        n as u16
    }
}

impl FrameView {
    /// The empty frame for a terminal of the given size.
    pub open spec fn fresh(terminal_size: TerminalSize) -> FrameView {
        FrameView {
            terminal_size,
            frame_size: Dimension { width: 0, height: 0 },
            cursor: Position { row: 0, col: 0 },
            expected_cursor: None,
            rows: Seq::empty(),
            pending: Seq::empty(),
            current: Token { text: Seq::empty(), style: StyleSheet::spec_empty() },
            hash_state: 0,
        }
    }

    /// The tokens that the row being written would hold if it were closed
    /// now: the finished ones, and the current one if it has text or a style
    /// that is not empty.
    pub open spec fn closing_tokens(self) -> Seq<Token> {
        if self.current.text.len() > 0 || !self.current.style.spec_is_empty() {
            self.pending.push(self.current)
        } else {
            self.pending
        }
    }

    /// Breaks the line: the row that is being written joins the finished
    /// rows, with whatever tokens it holds and the hash of what was written
    /// into it; the cursor goes to the start of the next row, and the extent
    /// of the frame grows by the row. A row without tokens is a blank row.
    /// The style of the current token stays.
    pub open spec fn break_line(self) -> FrameView {
        FrameView {
            rows: self.rows.push(
                RowView { tokens: self.closing_tokens(), hash: self.hash_state },
            ),
            pending: Seq::empty(),
            current: Token { text: Seq::empty(), style: self.current.style },
            hash_state: 0,
            cursor: Position { row: sat_add(self.cursor.row, 1), col: 0 },
            frame_size: Dimension {
                width: max16(self.frame_size.width, self.cursor.col),
                height: sat_add(self.frame_size.height, 1),
            },
            ..self
        }
    }

    /// Closes the row that is being written, if it holds anything: with a
    /// token to close, the line is broken; with none, no row is made, the
    /// cursor stays, and only the hash starts anew.
    pub open spec fn commit_row(self) -> FrameView {
        if self.closing_tokens().len() == 0 {
            FrameView {
                current: Token { text: Seq::empty(), style: self.current.style },
                hash_state: 0,
                ..self
            }
        } else {
            self.break_line()
        }
    }

    /// Appends a unit to the current token and feeds it, with the style of
    /// the token, into the hash.
    pub open spec fn append(self, unit: Unit) -> FrameView {
        FrameView {
            current: Token { text: self.current.text + unit.text, style: self.current.style },
            hash_state: absorb_piece(
                self.hash_state,
                unit.piece(),
                spec_style_code(self.current.style),
            ),
            ..self
        }
    }

    /// Whether a character of `width` columns no longer fits into the row
    /// that is being written.
    pub open spec fn overflows(self, width: u16) -> bool {
        width > sat_sub(self.terminal_size.width, self.cursor.col)
    }

    /// Writes one unit in the style of the current token. An escape
    /// sequence is appended and moves nothing. A line break ends the row,
    /// be it blank, and moves the cursor to the start of the next row.
    /// Any other character closes the row first if it no longer fits, is
    /// appended, and moves the cursor by its width.
    pub open spec fn put(self, unit: Unit) -> FrameView {
        if unit.escape {
            self.append(unit)
        } else if unit.is_newline() {
            self.break_line()
        } else {
            let base = if self.overflows(unit.width) {
                self.commit_row()
            } else {
                self
            };
            let placed = base.append(unit);
            FrameView {
                cursor: Position {
                    row: base.cursor.row,
                    col: sat_add(base.cursor.col, unit.width),
                },
                ..placed
            }
        }
    }

    /// Writes the units one after the other.
    pub open spec fn put_all(self, units: Seq<Unit>) -> FrameView
        decreases units.len(),
    {
        if units.len() == 0 {
            self
        } else {
            self.put_all(units.drop_last()).put(units.last())
        }
    }

    /// Ends a write: a current token that has text joins the finished
    /// tokens of the row, and the next token starts without text and without
    /// style.
    pub open spec fn flush(self) -> FrameView {
        if self.current.text.len() > 0 {
            FrameView {
                pending: self.pending.push(self.current),
                current: Token { text: Seq::empty(), style: StyleSheet::spec_empty() },
                ..self
            }
        } else {
            self
        }
    }

    /// Writes the units in the given style. No unit: nothing changes.
    pub open spec fn write_units(self, units: Seq<Unit>, style: StyleSheet) -> FrameView {
        if units.len() == 0 {
            self
        } else {
            (FrameView { current: Token { text: self.current.text, style }, ..self }).put_all(
                units,
            ).flush()
        }
    }

    /// Writes a text in the given style.
    pub open spec fn write(self, text: Seq<char>, style: StyleSheet) -> FrameView {
        self.write_units(spec_visual_units(text), style)
    }

    /// Writes the tokens one after the other.
    pub open spec fn write_tokens(self, tokens: Seq<Token>) -> FrameView
        decreases tokens.len(),
    {
        if tokens.len() == 0 {
            self
        } else {
            self.write_tokens(tokens.drop_last()).write(tokens.last().text, tokens.last().style)
        }
    }

    /// Writes the tokens of the rows, row after row, with nothing between
    /// the rows.
    pub open spec fn write_rows(self, rows: Seq<RowView>) -> FrameView
        decreases rows.len(),
    {
        if rows.len() == 0 {
            self
        } else {
            self.write_rows(rows.drop_last()).write_tokens(rows.last().tokens)
        }
    }

    /// Finishes the frame: closes the row that is being written, if it
    /// holds anything.
    pub open spec fn finish(self) -> FrameView {
        self.commit_row()
    }

    /// The place `offset` columns after the cursor: as many rows further
    /// down as the terminal width goes into the column, and in the column
    /// that is left. Only the low sixteen bits of the offset count, and a
    /// column or a row beyond the largest `u16` counts as the largest. In a
    /// terminal without columns the place lies one row down.
    pub open spec fn marked_position(self, offset: isize) -> Position {
        let col = sat_add(self.cursor.col, offset as u16);
        let width = self.terminal_size.width;
        if width == 0 {
            Position { row: sat_add(self.cursor.row, 1), col }
        } else {
            Position { row: sat_add(self.cursor.row, col / width), col: col % width }
        }
    }

    /// Marks the place `offset` columns after the cursor as the place where
    /// the cursor is to be shown.
    pub open spec fn mark_cursor(self, offset: isize) -> FrameView {
        FrameView { expected_cursor: Some(self.marked_position(offset)), ..self }
    }

    /// Whether the frame, as it was written, still fits a terminal of the
    /// given size.
    pub open spec fn fits(self, new_size: TerminalSize) -> bool {
        new_size.width >= self.frame_size.width && new_size.height >= self.frame_size.height
    }

    /// The frame written anew for a terminal of the given size: every token
    /// of every finished row, then the finished tokens of the row that is
    /// being written, go through `write` again, into an empty frame.
    pub open spec fn replayed(self, new_size: TerminalSize) -> FrameView {
        FrameView::fresh(new_size).write_rows(self.rows).write_tokens(self.pending)
    }

    /// Fits the frame to a terminal of the given size: where the frame
    /// still fits, only the terminal size changes; where it does not, the
    /// frame is written anew.
    pub open spec fn fit(self, new_size: TerminalSize) -> FrameView {
        if self.fits(new_size) {
            FrameView { terminal_size: new_size, ..self }
        } else {
            self.replayed(new_size)
        }
    }

    /// What holds of the running hash at any time, also in the middle of a
    /// write: it is the hash of the tokens of the row that is being written,
    /// the current one included.
    pub open spec fn hash_in_step(self) -> bool {
        self.hash_state == absorb_tokens(0, self.pending.push(self.current))
    }

    /// What holds of the finished rows at any time: the hash of every row
    /// is the hash of its tokens, no token holds a line break, and the
    /// height of the frame is the number of its rows.
    pub open spec fn rows_in_step(self) -> bool {
        &&& forall|i: int|
            0 <= i < self.rows.len() ==> (#[trigger] self.rows[i]).hash == row_digest(
                self.rows[i].tokens,
            )
        &&& forall|i: int|
            0 <= i < self.rows.len() ==> tokens_unbroken((#[trigger] self.rows[i]).tokens)
        &&& self.frame_size.height == clip16(self.rows.len())
    }

    /// What holds of the row that is being written at any time: no token
    /// of it holds a line break, for a line break closes the row and joins
    /// no token.
    pub open spec fn text_in_step(self) -> bool {
        tokens_unbroken(self.pending) && unbroken(self.current.text)
    }

    /// The invariant of a frame between two operations: the current token
    /// has no text, and hash, rows and text are in step with what was
    /// written.
    pub open spec fn wf(self) -> bool {
        &&& self.current.text.len() == 0
        &&& self.hash_in_step()
        &&& self.rows_in_step()
        &&& self.text_in_step()
    }
}

} // verus!

//! What holds of every frame that characters of one column are written
//! into: how many rows it gets, where a marked cursor lies, and that no
//! character is lost when the frame is laid out anew.

use crate::ansi_proofs::lemma_pieces_keep_text;
use crate::ansi::pieces;
use crate::frame_model::{
    clip16, is_line_break, sat_add, tokens_unbroken, unbroken, FrameView, RowView,
};
use crate::geometry::{Position, TerminalSize};
use crate::style::{StyleSheet, Token};
use crate::units::{lemma_visual_units_well_split, spec_visual_units, unit_pieces, Unit};
use vstd::arithmetic::div_mod::{
    lemma_fundamental_div_mod, lemma_fundamental_div_mod_converse, lemma_mod_bound,
};
use vstd::prelude::*;

verus! {

/// Whether the unit is an escape sequence, or a character of one column
/// that is no line break.
pub open spec fn narrow(unit: Unit) -> bool {
    unit.escape || (unit.text.len() == 1 && !unit.is_newline() && unit.width == 1)
}

/// Whether every unit is an escape sequence or a character of one column
/// that is no line break.
pub open spec fn all_narrow(units: Seq<Unit>) -> bool {
    forall|i: int| 0 <= i < units.len() ==> narrow(#[trigger] units[i])
}

/// Whether every unit is a character of one column that is no line break.
pub open spec fn all_single_columns(units: Seq<Unit>) -> bool {
    forall|i: int| 0 <= i < units.len() ==> !(#[trigger] units[i]).escape && narrow(units[i])
}

/// Number of units that are no escape sequences.
pub open spec fn printed(units: Seq<Unit>) -> nat
    decreases units.len(),
{
    if units.len() == 0 {
        0
    } else if units.last().escape {
        printed(units.drop_last())
    } else {
        printed(units.drop_last()) + 1
    }
}

/// The characters of the units, in order.
pub open spec fn units_text(units: Seq<Unit>) -> Seq<char>
    decreases units.len(),
{
    if units.len() == 0 {
        Seq::empty()
    } else {
        units_text(units.drop_last()) + units.last().text
    }
}

/// The characters of the tokens, in order.
pub open spec fn tokens_text(tokens: Seq<Token>) -> Seq<char>
    decreases tokens.len(),
{
    if tokens.len() == 0 {
        Seq::empty()
    } else {
        tokens_text(tokens.drop_last()) + tokens.last().text
    }
}

/// The characters of the rows, in order, with nothing between the rows.
pub open spec fn rows_text(rows: Seq<RowView>) -> Seq<char>
    decreases rows.len(),
{
    if rows.len() == 0 {
        Seq::empty()
    } else {
        rows_text(rows.drop_last()) + tokens_text(rows.last().tokens)
    }
}

/// All the characters that a frame holds: those of its finished rows, of
/// the row being written, and of the current token.
pub open spec fn frame_text(v: FrameView) -> Seq<char> {
    rows_text(v.rows) + tokens_text(v.pending) + v.current.text
}

/// Number of units over all the tokens that are no escape sequences.
pub open spec fn tokens_printed(tokens: Seq<Token>) -> nat
    decreases tokens.len(),
{
    if tokens.len() == 0 {
        0
    } else {
        tokens_printed(tokens.drop_last()) + printed(spec_visual_units(tokens.last().text))
    }
}

/// Whether every visual unit of every token is an escape sequence or a
/// character of one column that is no line break.
pub open spec fn tokens_narrow(tokens: Seq<Token>) -> bool {
    forall|i: int|
        0 <= i < tokens.len() ==> all_narrow(spec_visual_units((#[trigger] tokens[i]).text))
}

/// `n / d`, rounded up.
pub open spec fn ceil_div(n: nat, d: nat) -> nat {
    ((n + d - 1) / (d as int)) as nat
}

/// What holds of a frame after `count` characters of one column, and any
/// number of escape sequences, were written into it from its start: it
/// holds the characters `text`; the cursor stands in the row after the
/// finished rows; the rows before the cursor are full; and the row of the
/// cursor holds at least one character, unless nothing but escape sequences
/// was written yet.
pub open spec fn laid_out(v: FrameView, count: nat, text: Seq<char>) -> bool {
    let width = v.terminal_size.width;
    &&& frame_text(v) == text
    &&& v.cursor.row == clip16(v.rows.len())
    &&& v.rows.len() == 0 ==> v.frame_size.width == 0
    &&& count == 0 ==> v.rows.len() == 0 && v.cursor.col == 0
    &&& count >= 1 ==> {
        &&& 1 <= v.cursor.col <= width
        &&& v.rows.len() * width + v.cursor.col == count
        &&& (v.pending.len() > 0 || v.current.text.len() > 0)
    }
}

proof fn lemma_tokens_text_push(tokens: Seq<Token>, token: Token)
    ensures
        tokens_text(tokens.push(token)) == tokens_text(tokens) + token.text,
{
    assert(tokens.push(token).drop_last() == tokens);
}

proof fn lemma_rows_text_push(rows: Seq<RowView>, row: RowView)
    ensures
        rows_text(rows.push(row)) == rows_text(rows) + tokens_text(row.tokens),
{
    assert(rows.push(row).drop_last() == rows);
}

/// Closing a row loses no character.
pub proof fn lemma_commit_row_keeps_text(v: FrameView)
    ensures
        frame_text(v.commit_row()) == frame_text(v),
{
    let tokens = v.closing_tokens();
    if tokens.len() > 0 {
        lemma_rows_text_push(v.rows, RowView { tokens, hash: v.hash_state });
        if v.current.text.len() > 0 || !v.current.style.spec_is_empty() {
            lemma_tokens_text_push(v.pending, v.current);
        }
    }
}

proof fn lemma_put_narrow(v: FrameView, unit: Unit, count: nat, text: Seq<char>) -> (next: nat)
    requires
        laid_out(v, count, text),
        narrow(unit),
        v.terminal_size.width >= 1,
    ensures
        next == count + (if unit.escape {
            0nat
        } else {
            1nat
        }),
        laid_out(v.put(unit), next, text + unit.text),
        v.put(unit).terminal_size == v.terminal_size,
{
    let width = v.terminal_size.width;
    if unit.escape {
        assert(frame_text(v.append(unit)) =~= text + unit.text);
        count
    } else {
        let closes = v.overflows(unit.width);
        let base = if closes {
            v.commit_row()
        } else {
            v
        };
        lemma_commit_row_keeps_text(v);
        assert(frame_text(v.put(unit)) =~= frame_text(base) + unit.text);
        if closes {
            assert((v.rows.len() + 1) * width == v.rows.len() * width + width)
                by (nonlinear_arith);
        }
        count + 1
    }
}

proof fn lemma_put_all_narrow(v: FrameView, units: Seq<Unit>, count: nat, text: Seq<char>)
    requires
        laid_out(v, count, text),
        all_narrow(units),
        v.terminal_size.width >= 1,
    ensures
        laid_out(v.put_all(units), count + printed(units), text + units_text(units)),
        v.put_all(units).terminal_size == v.terminal_size,
    decreases units.len(),
{
    if units.len() > 0 {
        let front = units.drop_last();
        assert(all_narrow(front)) by {
            assert forall|i: int| 0 <= i < front.len() implies narrow(#[trigger] front[i]) by {
            }
        }
        lemma_put_all_narrow(v, front, count, text);
        let _ = lemma_put_narrow(
            v.put_all(front),
            units.last(),
            count + printed(front),
            text + units_text(front),
        );
        assert(text + units_text(front) + units.last().text =~= text + units_text(units));
    }
}

/// Writing narrow units adds their characters, in order, and keeps every
/// row before the cursor full.
pub proof fn lemma_write_units_narrow(
    v: FrameView,
    units: Seq<Unit>,
    style: StyleSheet,
    count: nat,
    text: Seq<char>,
)
    requires
        laid_out(v, count, text),
        all_narrow(units),
        v.terminal_size.width >= 1,
    ensures
        laid_out(v.write_units(units, style), count + printed(units), text + units_text(units)),
        v.write_units(units, style).terminal_size == v.terminal_size,
{
    if units.len() > 0 {
        let start = FrameView { current: Token { text: v.current.text, style }, ..v };
        lemma_put_all_narrow(start, units, count, text);
        let done = start.put_all(units);
        if done.current.text.len() > 0 {
            lemma_tokens_text_push(done.pending, done.current);
            assert(frame_text(done.flush()) =~= frame_text(done));
        }
    }
}

/// A text is spelled by its visual units.
pub proof fn lemma_visual_units_text(s: Seq<char>)
    ensures
        units_text(spec_visual_units(s)) == s,
{
    lemma_pieces_keep_text(s);
    lemma_visual_units_well_split(s);
    lemma_units_text_is_flatten(spec_visual_units(s));
}

proof fn lemma_units_text_is_flatten(units: Seq<Unit>)
    ensures
        units_text(units) == crate::ansi::flatten(unit_pieces(units)),
    decreases units.len(),
{
    if units.len() > 0 {
        lemma_units_text_is_flatten(units.drop_last());
        assert(unit_pieces(units).drop_last() == unit_pieces(units.drop_last()));
    }
}

/// Writing tokens whose units are narrow adds their characters, in order,
/// and keeps every row before the cursor full.
pub proof fn lemma_write_tokens_narrow(
    v: FrameView,
    tokens: Seq<Token>,
    count: nat,
    text: Seq<char>,
)
    requires
        laid_out(v, count, text),
        tokens_narrow(tokens),
        v.terminal_size.width >= 1,
    ensures
        laid_out(
            v.write_tokens(tokens),
            count + tokens_printed(tokens),
            text + tokens_text(tokens),
        ),
        v.write_tokens(tokens).terminal_size == v.terminal_size,
    decreases tokens.len(),
{
    if tokens.len() > 0 {
        let front = tokens.drop_last();
        let token = tokens.last();
        assert(tokens_narrow(front)) by {
            assert forall|i: int| 0 <= i < front.len() implies all_narrow(
                spec_visual_units((#[trigger] front[i]).text),
            ) by {
            }
        }
        lemma_write_tokens_narrow(v, front, count, text);
        lemma_write_units_narrow(
            v.write_tokens(front),
            spec_visual_units(token.text),
            token.style,
            count + tokens_printed(front),
            text + tokens_text(front),
        );
        lemma_visual_units_text(token.text);
        assert(text + tokens_text(front) + token.text =~= text + tokens_text(tokens));
    }
}

/// Finishing a frame that holds `count >= 1` characters of one column
/// gives `count / width`, rounded up, rows, which hold all that was
/// written.
pub proof fn lemma_finish_laid_out(v: FrameView, count: nat, text: Seq<char>)
    requires
        laid_out(v, count, text),
        count >= 1,
        v.terminal_size.width >= 1,
    ensures
        v.finish().rows.len() == ceil_div(count, v.terminal_size.width as nat),
        rows_text(v.finish().rows) == text,
        v.finish().pending.len() == 0,
        v.rows.len() == 0 ==> v.finish().frame_size.width == count && v.finish().rows[0].tokens
            == v.closing_tokens(),
{
    let width = v.terminal_size.width as int;
    let rows = v.rows.len() as int;
    lemma_commit_row_keeps_text(v);
    assert(count + width - 1 == (rows + 1) * width + (v.cursor.col - 1)) by (nonlinear_arith)
        requires
            rows * width + v.cursor.col == count,
    ;
    lemma_fundamental_div_mod_converse(count + width - 1, width, rows + 1, v.cursor.col - 1);
}

proof fn lemma_printed_all(units: Seq<Unit>)
    requires
        all_single_columns(units),
    ensures
        printed(units) == units.len(),
        all_narrow(units),
    decreases units.len(),
{
    if units.len() > 0 {
        let front = units.drop_last();
        assert forall|i: int| 0 <= i < front.len() implies !(#[trigger] front[i]).escape && narrow(
            front[i],
        ) by {
        }
        lemma_printed_all(front);
    }
}

/// Wrap correctness. A run of `n` characters of one column each, written
/// into an empty frame for a terminal of `w >= 1` columns, gives `n / w`,
/// rounded up, rows when the frame is finished, and the rows hold the
/// characters of the run in order.
pub proof fn law_wrap_correctness(size: TerminalSize, units: Seq<Unit>, style: StyleSheet)
    requires
        size.width >= 1,
        all_single_columns(units),
    ensures
        FrameView::fresh(size).write_units(units, style).finish().rows.len() == ceil_div(
            units.len(),
            size.width as nat,
        ),
        rows_text(FrameView::fresh(size).write_units(units, style).finish().rows) == units_text(
            units,
        ),
{
    let fresh = FrameView::fresh(size);
    lemma_printed_all(units);
    if units.len() == 0 {
        assert((0 + size.width - 1) / (size.width as int) == 0) by {
            lemma_fundamental_div_mod_converse(
                size.width - 1,
                size.width as int,
                0,
                size.width - 1,
            );
        }
    } else {
        lemma_write_units_narrow(fresh, units, style, 0, Seq::empty());
        lemma_finish_laid_out(fresh.write_units(units, style), units.len(), units_text(units));
    }
}

/// The column that the cursor stands in after `n` characters of one column
/// were written into an empty frame of `w >= 1` columns: the cursor stays
/// behind the last character of a full row until the next character comes.
pub open spec fn column_after(n: nat, w: nat) -> nat {
    if n == 0 {
        0
    } else {
        (n - ((n - 1) / (w as int)) * w) as nat
    }
}

/// After `n` characters of one column the cursor stands in row
/// `(n - 1) / w` and column `column_after(n, w)`.
pub proof fn lemma_cursor_after_run(size: TerminalSize, units: Seq<Unit>, style: StyleSheet)
    requires
        size.width >= 1,
        all_single_columns(units),
        units.len() >= 1,
        (units.len() - 1) / (size.width as int) <= u16::MAX,
    ensures
        ({
            let frame = FrameView::fresh(size).write_units(units, style);
            &&& frame.rows.len() == (units.len() - 1) / (size.width as int)
            &&& frame.cursor.col == column_after(units.len(), size.width as nat)
            &&& 1 <= frame.cursor.col <= size.width
            &&& frame.terminal_size == size
        }),
{
    let fresh = FrameView::fresh(size);
    lemma_printed_all(units);
    lemma_write_units_narrow(fresh, units, style, 0, Seq::empty());
    let frame = fresh.write_units(units, style);
    let width = size.width as int;
    let rows = frame.rows.len() as int;
    lemma_fundamental_div_mod_converse(units.len() - 1, width, rows, frame.cursor.col - 1);
}

/// Cursor marking. After `n` characters of one column each were written
/// into an empty frame for a terminal of `w >= 1` columns, the place marked
/// `offset >= 0` columns after the cursor lies in row `(n + offset) / w` and
/// column `(n + offset) % w`.
pub proof fn law_cursor_marking(
    size: TerminalSize,
    units: Seq<Unit>,
    style: StyleSheet,
    offset: isize,
)
    requires
        size.width >= 1,
        all_single_columns(units),
        0 <= offset,
        units.len() + offset <= u16::MAX,
    ensures
        FrameView::fresh(size).write_units(units, style).mark_cursor(offset).expected_cursor
            == Some(
            Position {
                row: ((units.len() + offset) / (size.width as int)) as u16,
                col: ((units.len() + offset) % (size.width as int)) as u16,
            },
        ),
{
    let width = size.width as int;
    let n = units.len() as int;
    let frame = FrameView::fresh(size).write_units(units, style);
    assert(offset as u16 == offset);
    if n > 0 {
        lemma_cursor_after_run(size, units, style);
        lemma_printed_all(units);
        lemma_write_units_narrow(FrameView::fresh(size), units, style, 0, Seq::empty());
    }
    let rows = frame.rows.len() as int;
    let reached = frame.cursor.col + offset;
    assert(n == rows * width + frame.cursor.col);
    lemma_fundamental_div_mod(reached, width);
    lemma_mod_bound(reached, width);
    let down = reached / width;
    let left = reached % width;
    assert(0 <= down) by (nonlinear_arith)
        requires
            down == reached / width,
            reached >= 0,
            width >= 1,
    ;
    assert(n + offset == (rows + down) * width + left) by (nonlinear_arith)
        requires
            n == rows * width + frame.cursor.col,
            reached == frame.cursor.col + offset,
            reached == width * down + left,
    ;
    lemma_fundamental_div_mod_converse(n + offset, width, rows + down, left);
    assert(rows + down <= n + offset) by (nonlinear_arith)
        requires
            n + offset == (rows + down) * width + left,
            left >= 0,
            width >= 1,
            rows + down >= 0,
    ;
}

proof fn lemma_put_all_on_one_row(v: FrameView, units: Seq<Unit>)
    requires
        laid_out(v, 0, Seq::empty()),
        v.pending.len() == 0,
        all_narrow(units),
        printed(units) <= v.terminal_size.width,
    ensures
        v.put_all(units).rows.len() == 0,
        v.put_all(units).pending.len() == 0,
        v.put_all(units).current.text == units_text(units),
        v.put_all(units).current.style == v.current.style,
        v.put_all(units).cursor.col == printed(units),
        v.put_all(units).terminal_size == v.terminal_size,
        v.put_all(units).frame_size == v.frame_size,
    decreases units.len(),
{
    assert(v.current.text =~= Seq::<char>::empty());
    if units.len() > 0 {
        let front = units.drop_last();
        assert(all_narrow(front)) by {
            assert forall|i: int| 0 <= i < front.len() implies narrow(#[trigger] front[i]) by {
            }
        }
        lemma_put_all_on_one_row(v, front);
    }
}

/// Resize shrink replay. Let a text whose visual units are escape
/// sequences and `l >= 1` characters of one column each be written into an
/// empty frame for a terminal of at least `l` columns, and let the frame be
/// finished. It has one row. Fitted to a terminal of fewer than `l`, and at
/// least one, columns and finished again, it has `l / w`, rounded up, rows
/// for the new width `w`, and the rows hold the characters of the text,
/// escape sequences included, in their order.
pub proof fn law_resize_shrink_replay(
    old_size: TerminalSize,
    new_size: TerminalSize,
    text: Seq<char>,
    style: StyleSheet,
)
    requires
        all_narrow(spec_visual_units(text)),
        1 <= new_size.width < printed(spec_visual_units(text)) <= old_size.width,
    ensures
        FrameView::fresh(old_size).write(text, style).finish().rows.len() == 1,
        FrameView::fresh(old_size).write(text, style).finish().fit(new_size).finish().rows.len()
            == ceil_div(printed(spec_visual_units(text)), new_size.width as nat),
        rows_text(
            FrameView::fresh(old_size).write(text, style).finish().fit(new_size).finish().rows,
        ) == text,
{
    let units = spec_visual_units(text);
    let length = printed(units);
    let written = FrameView::fresh(old_size).write(text, style);
    let frame = written.finish();
    lemma_visual_units_text(text);
    // the frame as it was written: one row, one token, as wide as the text
    lemma_write_units_narrow(FrameView::fresh(old_size), units, style, 0, Seq::empty());
    lemma_finish_laid_out(written, length, text);
    assert(frame.rows.len() == 1) by {
        lemma_fundamental_div_mod_converse(
            length + old_size.width - 1,
            old_size.width as int,
            1,
            length - 1,
        );
    }
    let start = FrameView {
        current: Token { text: Seq::empty(), style },
        ..FrameView::fresh(old_size)
    };
    lemma_put_all_on_one_row(start, units);
    let token = Token { text, style };
    assert(written.pending == seq![token]);
    // the frame as it is laid out anew
    let rows = frame.rows;
    let anew = FrameView::fresh(new_size);
    assert(anew.write_rows(rows) == anew.write_rows(rows.drop_last()).write_tokens(
        rows.last().tokens,
    ));
    assert(anew.write_tokens(seq![token]) == anew.write_tokens(seq![token].drop_last()).write(
        text,
        style,
    ));
    lemma_write_units_narrow(anew, units, style, 0, Seq::empty());
    lemma_finish_laid_out(anew.write(text, style), length, text);
}

/// Number of units over all the tokens of all the rows that are no escape
/// sequences.
pub open spec fn rows_printed(rows: Seq<RowView>) -> nat
    decreases rows.len(),
{
    if rows.len() == 0 {
        0
    } else {
        rows_printed(rows.drop_last()) + tokens_printed(rows.last().tokens)
    }
}

/// Whether every visual unit of every token of every row is an escape
/// sequence or a character of one column that is no line break.
pub open spec fn rows_narrow(rows: Seq<RowView>) -> bool {
    forall|i: int| 0 <= i < rows.len() ==> tokens_narrow((#[trigger] rows[i]).tokens)
}

/// Writing the tokens of rows whose units are narrow adds their
/// characters, in order, and keeps every row before the cursor full.
pub proof fn lemma_write_rows_narrow(v: FrameView, rows: Seq<RowView>, count: nat, text: Seq<char>)
    requires
        laid_out(v, count, text),
        rows_narrow(rows),
        v.terminal_size.width >= 1,
    ensures
        laid_out(v.write_rows(rows), count + rows_printed(rows), text + rows_text(rows)),
        v.write_rows(rows).terminal_size == v.terminal_size,
    decreases rows.len(),
{
    if rows.len() > 0 {
        let front = rows.drop_last();
        assert(rows_narrow(front)) by {
            assert forall|i: int| 0 <= i < front.len() implies tokens_narrow(
                (#[trigger] front[i]).tokens,
            ) by {
            }
        }
        lemma_write_rows_narrow(v, front, count, text);
        lemma_write_tokens_narrow(
            v.write_rows(front),
            rows.last().tokens,
            count + rows_printed(front),
            text + rows_text(front),
        );
        assert(text + rows_text(front) + tokens_text(rows.last().tokens) =~= text + rows_text(
            rows,
        ));
    }
}

/// A frame laid out anew keeps its characters and fills its rows. Let the
/// visual units of all the tokens of a frame be escape sequences and
/// characters of one column, `l >= 1` of these in all. Written anew for a
/// terminal of `w >= 1` columns and finished, the frame has `l / w`,
/// rounded up, rows, and they hold the characters that the rows and the
/// open row of the frame held, in their order.
pub proof fn law_replay_keeps_text(frame: FrameView, new_size: TerminalSize)
    requires
        new_size.width >= 1,
        rows_narrow(frame.rows),
        tokens_narrow(frame.pending),
        rows_printed(frame.rows) + tokens_printed(frame.pending) >= 1,
    ensures
        frame.replayed(new_size).finish().rows.len() == ceil_div(
            rows_printed(frame.rows) + tokens_printed(frame.pending),
            new_size.width as nat,
        ),
        rows_text(frame.replayed(new_size).finish().rows) == rows_text(frame.rows) + tokens_text(
            frame.pending,
        ),
{
    let anew = FrameView::fresh(new_size);
    lemma_write_rows_narrow(anew, frame.rows, 0, Seq::empty());
    lemma_write_tokens_narrow(
        anew.write_rows(frame.rows),
        frame.pending,
        rows_printed(frame.rows),
        Seq::empty() + rows_text(frame.rows),
    );
    lemma_finish_laid_out(
        frame.replayed(new_size),
        rows_printed(frame.rows) + tokens_printed(frame.pending),
        rows_text(frame.rows) + tokens_text(frame.pending),
    );
}

/// An escape sequence moves nothing: it joins the current token and the
/// hash, and cursor, rows and sizes stay as they are.
pub proof fn law_escape_takes_no_column(v: FrameView, unit: Unit)
    requires
        unit.escape,
    ensures
        v.put(unit).cursor == v.cursor,
        v.put(unit).rows == v.rows,
        v.put(unit).pending == v.pending,
        v.put(unit).frame_size == v.frame_size,
        v.put(unit).current.text == v.current.text + unit.text,
        v.put(unit).hash_state == crate::hasher::absorb_piece(
            v.hash_state,
            unit.piece(),
            crate::style::spec_style_code(v.current.style),
        ),
{
}

/// The hash of a finished row is the hash of its tokens: two rows with the
/// same tokens have the same hash, in whichever frames and at whichever
/// places they stand.
pub proof fn law_row_hash_depends_on_content_alone(
    first: FrameView,
    i: int,
    second: FrameView,
    j: int,
)
    requires
        first.wf(),
        second.wf(),
        0 <= i < first.rows.len(),
        0 <= j < second.rows.len(),
        first.rows[i].tokens == second.rows[j].tokens,
    ensures
        first.rows[i].hash == crate::hasher::row_digest(first.rows[i].tokens),
        first.rows[i].hash == second.rows[j].hash,
{
}

/// The style `n` times over.
pub open spec fn repeat_style(style: StyleSheet, n: nat) -> Seq<StyleSheet> {
    Seq::new(n, |i: int| style)
}

/// The styles of the characters of the tokens, character by character.
pub open spec fn tokens_styles(tokens: Seq<Token>) -> Seq<StyleSheet>
    decreases tokens.len(),
{
    if tokens.len() == 0 {
        Seq::empty()
    } else {
        tokens_styles(tokens.drop_last()) + repeat_style(
            tokens.last().style,
            tokens.last().text.len(),
        )
    }
}

/// The styles of the characters of the rows, character by character.
pub open spec fn rows_styles(rows: Seq<RowView>) -> Seq<StyleSheet>
    decreases rows.len(),
{
    if rows.len() == 0 {
        Seq::empty()
    } else {
        rows_styles(rows.drop_last()) + tokens_styles(rows.last().tokens)
    }
}

/// The styles of all the characters that a frame holds, in the order of
/// `frame_text`.
pub open spec fn frame_styles(v: FrameView) -> Seq<StyleSheet> {
    rows_styles(v.rows) + tokens_styles(v.pending) + repeat_style(
        v.current.style,
        v.current.text.len(),
    )
}

/// Whether none of the units is a line break.
pub open spec fn no_line_breaks(units: Seq<Unit>) -> bool {
    forall|i: int| 0 <= i < units.len() ==> !(#[trigger] units[i]).is_newline()
}

proof fn lemma_tokens_styles_push(tokens: Seq<Token>, token: Token)
    ensures
        tokens_styles(tokens.push(token)) == tokens_styles(tokens) + repeat_style(
            token.style,
            token.text.len(),
        ),
{
    assert(tokens.push(token).drop_last() == tokens);
}

proof fn lemma_rows_styles_push(rows: Seq<RowView>, row: RowView)
    ensures
        rows_styles(rows.push(row)) == rows_styles(rows) + tokens_styles(row.tokens),
{
    assert(rows.push(row).drop_last() == rows);
}

/// Breaking the line loses no character and changes no style.
pub proof fn lemma_break_line_keeps_text(v: FrameView)
    ensures
        frame_text(v.break_line()) == frame_text(v),
        frame_styles(v.break_line()) == frame_styles(v),
{
    let tokens = v.closing_tokens();
    let row = RowView { tokens, hash: v.hash_state };
    lemma_rows_text_push(v.rows, row);
    lemma_rows_styles_push(v.rows, row);
    if v.current.text.len() > 0 || !v.current.style.spec_is_empty() {
        lemma_tokens_text_push(v.pending, v.current);
        lemma_tokens_styles_push(v.pending, v.current);
    }
    assert(tokens_text(tokens) =~= tokens_text(v.pending) + v.current.text);
    assert(tokens_styles(tokens) =~= tokens_styles(v.pending) + repeat_style(
        v.current.style,
        v.current.text.len(),
    ));
    assert(tokens_text(Seq::<Token>::empty()) =~= Seq::<char>::empty());
    assert(tokens_styles(Seq::<Token>::empty()) =~= Seq::<StyleSheet>::empty());
    assert(frame_text(v.break_line()) =~= frame_text(v));
    assert(frame_styles(v.break_line()) =~= frame_styles(v));
}

/// Closing a row changes no style.
pub proof fn lemma_commit_row_keeps_styles(v: FrameView)
    ensures
        frame_styles(v.commit_row()) == frame_styles(v),
{
    if v.closing_tokens().len() > 0 {
        lemma_break_line_keeps_text(v);
    } else {
        assert(frame_styles(v.commit_row()) =~= frame_styles(v));
    }
}

proof fn lemma_put_keeps_text(v: FrameView, unit: Unit)
    requires
        !unit.is_newline(),
    ensures
        frame_text(v.put(unit)) == frame_text(v) + unit.text,
        frame_styles(v.put(unit)) == frame_styles(v) + repeat_style(
            v.current.style,
            unit.text.len(),
        ),
        v.put(unit).current.style == v.current.style,
{
    let base = if !unit.escape && v.overflows(unit.width) {
        v.commit_row()
    } else {
        v
    };
    lemma_commit_row_keeps_text(v);
    lemma_commit_row_keeps_styles(v);
    assert(frame_text(v.put(unit)) =~= frame_text(base) + unit.text);
    assert(frame_styles(v.put(unit)) =~= frame_styles(base) + repeat_style(
        v.current.style,
        unit.text.len(),
    ));
}

proof fn lemma_put_all_keeps_text(v: FrameView, units: Seq<Unit>)
    requires
        no_line_breaks(units),
    ensures
        frame_text(v.put_all(units)) == frame_text(v) + units_text(units),
        frame_styles(v.put_all(units)) == frame_styles(v) + repeat_style(
            v.current.style,
            units_text(units).len(),
        ),
        v.put_all(units).current.style == v.current.style,
    decreases units.len(),
{
    if units.len() == 0 {
        assert(frame_text(v) + units_text(units) =~= frame_text(v));
        assert(frame_styles(v) + repeat_style(v.current.style, 0) =~= frame_styles(v));
    } else {
        let front = units.drop_last();
        assert(no_line_breaks(front)) by {
            assert forall|i: int| 0 <= i < front.len() implies !(
            #[trigger] front[i]).is_newline() by {
                assert(front[i] == units[i]);
            }
        }
        lemma_put_all_keeps_text(v, front);
        lemma_put_keeps_text(v.put_all(front), units.last());
        assert(frame_text(v) + units_text(front) + units.last().text =~= frame_text(v)
            + units_text(units));
        assert(frame_styles(v) + repeat_style(v.current.style, units_text(front).len())
            + repeat_style(v.current.style, units.last().text.len()) =~= frame_styles(v)
            + repeat_style(v.current.style, units_text(units).len()));
    }
}

/// Writing units that are no line breaks adds their characters, in order
/// and in the style of the write, and changes nothing of what the frame
/// held.
pub proof fn lemma_write_units_keeps_text(v: FrameView, units: Seq<Unit>, style: StyleSheet)
    requires
        v.current.text.len() == 0,
        no_line_breaks(units),
    ensures
        frame_text(v.write_units(units, style)) == frame_text(v) + units_text(units),
        frame_styles(v.write_units(units, style)) == frame_styles(v) + repeat_style(
            style,
            units_text(units).len(),
        ),
        v.write_units(units, style).current.text.len() == 0,
{
    if units.len() == 0 {
        assert(frame_text(v) + units_text(units) =~= frame_text(v));
        assert(frame_styles(v) + repeat_style(style, 0) =~= frame_styles(v));
    } else {
        let start = FrameView { current: Token { text: v.current.text, style }, ..v };
        assert(frame_text(start) == frame_text(v));
        assert(frame_styles(start) =~= frame_styles(v));
        lemma_put_all_keeps_text(start, units);
        let done = start.put_all(units);
        if done.current.text.len() > 0 {
            lemma_tokens_text_push(done.pending, done.current);
            lemma_tokens_styles_push(done.pending, done.current);
            assert(frame_text(done.flush()) =~= frame_text(done));
            assert(frame_styles(done.flush()) =~= frame_styles(done));
        }
    }
}

/// Writing a text without line breaks adds its characters, in order and in
/// the style of the write.
pub proof fn lemma_write_keeps_text(v: FrameView, text: Seq<char>, style: StyleSheet)
    requires
        v.current.text.len() == 0,
        unbroken(text),
    ensures
        frame_text(v.write(text, style)) == frame_text(v) + text,
        frame_styles(v.write(text, style)) == frame_styles(v) + repeat_style(style, text.len()),
        v.write(text, style).current.text.len() == 0,
{
    let units = spec_visual_units(text);
    lemma_visual_units_well_split(text);
    lemma_visual_units_text(text);
    assert(no_line_breaks(units)) by {
        assert forall|i: int| 0 <= i < units.len() implies !(#[trigger] units[i]).is_newline() by {
            assert(units[i].piece() == unit_pieces(units)[i]);
            assert(!is_line_break(pieces(text)[i]));
        }
    }
    lemma_write_units_keeps_text(v, units, style);
}

/// Writing tokens without line breaks adds their characters, in order,
/// each in the style of its token.
pub proof fn lemma_write_tokens_keeps_text(v: FrameView, tokens: Seq<Token>)
    requires
        v.current.text.len() == 0,
        tokens_unbroken(tokens),
    ensures
        frame_text(v.write_tokens(tokens)) == frame_text(v) + tokens_text(tokens),
        frame_styles(v.write_tokens(tokens)) == frame_styles(v) + tokens_styles(tokens),
        v.write_tokens(tokens).current.text.len() == 0,
    decreases tokens.len(),
{
    if tokens.len() == 0 {
        assert(frame_text(v) + tokens_text(tokens) =~= frame_text(v));
        assert(frame_styles(v) + tokens_styles(tokens) =~= frame_styles(v));
    } else {
        let front = tokens.drop_last();
        let token = tokens.last();
        assert(tokens_unbroken(front)) by {
            assert forall|i: int| 0 <= i < front.len() implies unbroken(
                (#[trigger] front[i]).text,
            ) by {
                assert(front[i] == tokens[i]);
            }
        }
        lemma_write_tokens_keeps_text(v, front);
        lemma_write_keeps_text(v.write_tokens(front), token.text, token.style);
        assert(frame_text(v) + tokens_text(front) + token.text =~= frame_text(v) + tokens_text(
            tokens,
        ));
        assert(frame_styles(v) + tokens_styles(front) + repeat_style(
            token.style,
            token.text.len(),
        ) =~= frame_styles(v) + tokens_styles(tokens));
    }
}

/// Writing the tokens of rows without line breaks adds their characters,
/// in order, each in the style of its token.
pub proof fn lemma_write_rows_keeps_text(v: FrameView, rows: Seq<RowView>)
    requires
        v.current.text.len() == 0,
        forall|i: int| 0 <= i < rows.len() ==> tokens_unbroken((#[trigger] rows[i]).tokens),
    ensures
        frame_text(v.write_rows(rows)) == frame_text(v) + rows_text(rows),
        frame_styles(v.write_rows(rows)) == frame_styles(v) + rows_styles(rows),
        v.write_rows(rows).current.text.len() == 0,
    decreases rows.len(),
{
    if rows.len() == 0 {
        assert(frame_text(v) + rows_text(rows) =~= frame_text(v));
        assert(frame_styles(v) + rows_styles(rows) =~= frame_styles(v));
    } else {
        let front = rows.drop_last();
        assert forall|i: int| 0 <= i < front.len() implies tokens_unbroken(
            (#[trigger] front[i]).tokens,
        ) by {
            assert(front[i] == rows[i]);
        }
        lemma_write_rows_keeps_text(v, front);
        lemma_write_tokens_keeps_text(v.write_rows(front), rows.last().tokens);
        assert(frame_text(v) + rows_text(front) + tokens_text(rows.last().tokens)
            =~= frame_text(v) + rows_text(rows));
        assert(frame_styles(v) + rows_styles(front) + tokens_styles(rows.last().tokens)
            =~= frame_styles(v) + rows_styles(rows));
    }
}

/// Fitting keeps the content. A well-formed frame fitted to a terminal of
/// any size holds the characters that it held, in their order and each in
/// its style, whatever their widths: laying a frame out anew moves the
/// places where rows end and nothing else.
pub proof fn law_fitting_keeps_text_and_styles(frame: FrameView, new_size: TerminalSize)
    requires
        frame.wf(),
    ensures
        frame_text(frame.fit(new_size)) == frame_text(frame),
        frame_styles(frame.fit(new_size)) == frame_styles(frame),
        frame_text(frame) == rows_text(frame.rows) + tokens_text(frame.pending),
{
    let anew = FrameView::fresh(new_size);
    assert(frame_text(frame) =~= rows_text(frame.rows) + tokens_text(frame.pending));
    assert(frame_styles(frame) =~= rows_styles(frame.rows) + tokens_styles(frame.pending));
    assert(frame_text(anew) =~= Seq::<char>::empty());
    assert(frame_styles(anew) =~= Seq::<StyleSheet>::empty());
    if !frame.fits(new_size) {
        lemma_write_rows_keeps_text(anew, frame.rows);
        lemma_write_tokens_keeps_text(anew.write_rows(frame.rows), frame.pending);
        assert(frame_text(frame.fit(new_size)) =~= frame_text(frame));
        assert(frame_styles(frame.fit(new_size)) =~= frame_styles(frame));
    } else {
        assert(frame_text(frame.fit(new_size)) == frame_text(frame));
        assert(frame_styles(frame.fit(new_size)) == frame_styles(frame));
    }
}

/// A line break always moves the cursor: whatever the row held, it joins
/// the finished rows, blank if it held nothing, and the cursor stands at
/// the start of the next row.
pub proof fn law_line_break_moves_the_cursor(v: FrameView, unit: Unit)
    requires
        unit.is_newline(),
    ensures
        v.put(unit).cursor == (Position { row: sat_add(v.cursor.row, 1), col: 0 }),
        v.put(unit).rows.len() == v.rows.len() + 1,
        v.put(unit).rows.last().tokens == v.closing_tokens(),
        v.put(unit).pending.len() == 0,
{
}

/// Whether the row of the cursor is the number of finished rows, as far as
/// a `u16` counts.
pub open spec fn cursor_counts_rows(v: FrameView) -> bool {
    v.cursor.row == clip16(v.rows.len())
}

proof fn lemma_put_all_counts_rows(v: FrameView, units: Seq<Unit>)
    requires
        cursor_counts_rows(v),
    ensures
        cursor_counts_rows(v.put_all(units)),
    decreases units.len(),
{
    if units.len() > 0 {
        lemma_put_all_counts_rows(v, units.drop_last());
    }
}

/// The cursor row and the rows stay in step. In a frame whose cursor row
/// is the number of its finished rows, as in an empty frame, it is so after
/// every write and after the finish: every row that is closed moves the
/// cursor one row down, and nothing else moves it down.
pub proof fn law_cursor_row_counts_the_rows(v: FrameView, units: Seq<Unit>, style: StyleSheet)
    requires
        cursor_counts_rows(v),
    ensures
        cursor_counts_rows(FrameView::fresh(v.terminal_size)),
        cursor_counts_rows(v.write_units(units, style)),
        cursor_counts_rows(v.finish()),
{
    if units.len() > 0 {
        let start = FrameView { current: Token { text: v.current.text, style }, ..v };
        lemma_put_all_counts_rows(start, units);
    }
}

/// Whether the cursor of the frame stands inside the terminal, and in a
/// row that holds something if it stands behind the first column.
pub open spec fn cursor_in_row(v: FrameView) -> bool {
    &&& v.cursor.col <= v.terminal_size.width
    &&& v.cursor.col > 0 ==> v.pending.len() > 0 || v.current.text.len() > 0
}

/// Whether every unit that is no escape sequence has a character and is no
/// wider than `width` columns.
pub open spec fn no_wider_than(units: Seq<Unit>, width: u16) -> bool {
    forall|i: int|
        0 <= i < units.len() ==> (#[trigger] units[i]).escape || (units[i].text.len() > 0
            && units[i].width <= width)
}

proof fn lemma_put_all_cursor_in_row(v: FrameView, units: Seq<Unit>)
    requires
        cursor_in_row(v),
        no_wider_than(units, v.terminal_size.width),
    ensures
        cursor_in_row(v.put_all(units)),
        v.put_all(units).terminal_size == v.terminal_size,
    decreases units.len(),
{
    if units.len() > 0 {
        let front = units.drop_last();
        assert forall|i: int| 0 <= i < front.len() implies (#[trigger] front[i]).escape || (
        front[i].text.len() > 0 && front[i].width <= v.terminal_size.width) by {
        }
        lemma_put_all_cursor_in_row(v, front);
    }
}

/// The cursor never leaves the terminal. Where it stands inside the
/// terminal before a write, and no character is wider than the terminal, it
/// stands inside the terminal after the write: a character that would go
/// beyond the right edge closes the row first.
pub proof fn law_cursor_stays_inside(v: FrameView, units: Seq<Unit>, style: StyleSheet)
    requires
        cursor_in_row(v),
        no_wider_than(units, v.terminal_size.width),
    ensures
        cursor_in_row(v.write_units(units, style)),
{
    if units.len() > 0 {
        let start = FrameView { current: Token { text: v.current.text, style }, ..v };
        lemma_put_all_cursor_in_row(start, units);
    }
}

} // verus!

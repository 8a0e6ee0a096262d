//! What holds of every redraw.

use crate::command::{line_break, CommandView};
use crate::frame_model::{FrameView, RowView};
use crate::geometry::TerminalSize;
use crate::render_model::{
    commit_commands, paint, row_at, row_commands, rows_commands, RenderBoxView,
};
use vstd::prelude::*;

verus! {

/// The same commands `n` times over.
pub open spec fn repeat(block: Seq<CommandView>, n: nat) -> Seq<CommandView>
    decreases n,
{
    if n == 0 {
        Seq::empty()
    } else {
        repeat(block, (n - 1) as nat) + block
    }
}

/// The commands for a row that stays as it is.
pub open spec fn kept_row() -> Seq<CommandView> {
    seq![CommandView::CursorMoveToColumn(0), CommandView::Write(line_break())]
}

/// The commands for a row that is cleared.
pub open spec fn cleared_row() -> Seq<CommandView> {
    seq![
        CommandView::CursorMoveToColumn(0),
        CommandView::ClearCurrentLine,
        CommandView::Write(line_break()),
    ]
}

/// The commands for a row that is written again and cleared behind what was
/// written.
pub open spec fn rewritten_row(row: RowView) -> Seq<CommandView> {
    seq![CommandView::CursorMoveToColumn(0)] + paint(row.tokens) + seq![
        CommandView::ClearUntilNewLine,
        CommandView::Write(line_break()),
    ]
}

/// Whether none of the commands puts content on the screen or takes
/// content off it.
pub open spec fn leaves_content_alone(commands: Seq<CommandView>) -> bool {
    forall|k: int| 0 <= k < commands.len() ==> !(#[trigger] commands[k]).touches_content()
}

/// Repeated commands that leave the content alone leave the content alone.
pub proof fn lemma_repeat_leaves_content_alone(block: Seq<CommandView>, n: nat)
    requires
        leaves_content_alone(block),
    ensures
        leaves_content_alone(repeat(block, n)),
    decreases n,
{
    if n > 0 {
        lemma_repeat_leaves_content_alone(block, (n - 1) as nat);
    }
}

/// A row that both frames hold with the same hash is not touched: the
/// cursor goes to its first column and on to the next line.
pub proof fn law_equal_hash_keeps_row(last: RowView, current: RowView)
    requires
        last.hash == current.hash,
    ensures
        row_commands(Some(last), Some(current)) == kept_row(),
{
}

/// A row with the same tokens in both frames is not touched, whatever its
/// index and whichever frames hold it: the hash of a row depends on its
/// tokens alone.
pub proof fn law_unchanged_row_is_kept(last: FrameView, current: FrameView, i: int)
    requires
        last.rows_in_step(),
        current.rows_in_step(),
        0 <= i < last.rows.len(),
        0 <= i < current.rows.len(),
        last.rows[i].tokens == current.rows[i].tokens,
    ensures
        last.rows[i].hash == current.rows[i].hash,
        row_commands(row_at(last.rows, i), row_at(current.rows, i)) == kept_row(),
{
}

/// A row that both frames hold with different hashes is written again,
/// token by token, and the screen is cleared behind it.
pub proof fn law_changed_row_is_rewritten(last: RowView, current: RowView)
    requires
        last.hash != current.hash,
    ensures
        row_commands(Some(last), Some(current)) == rewritten_row(current),
{
}

/// A row that only the frame on screen holds is cleared.
pub proof fn law_removed_row_is_cleared(last: RowView)
    ensures
        row_commands(Some(last), None) == cleared_row(),
{
}

/// A row that only the new frame holds is written and nothing is cleared.
pub proof fn law_added_row_is_written(current: RowView)
    ensures
        row_commands(None, Some(current)) == seq![CommandView::CursorMoveToColumn(0)] + paint(
            current.tokens,
        ) + seq![CommandView::Write(line_break())],
{
}

/// The commands for the first `n` rows where, of the rows that both frames
/// hold, only row `k` differs in its hash, and the new frame is not the
/// longer one.
pub open spec fn single_change(
    last: Seq<RowView>,
    current: Seq<RowView>,
    k: int,
    n: nat,
) -> Seq<CommandView> {
    if n <= k {
        repeat(kept_row(), n)
    } else if n <= current.len() {
        repeat(kept_row(), k as nat) + rewritten_row(current[k]) + repeat(
            kept_row(),
            (n - 1 - k) as nat,
        )
    } else {
        repeat(kept_row(), k as nat) + rewritten_row(current[k]) + repeat(
            kept_row(),
            (current.len() - 1 - k) as nat,
        ) + repeat(cleared_row(), (n - current.len()) as nat)
    }
}

proof fn lemma_single_change(last: Seq<RowView>, current: Seq<RowView>, k: int, n: nat)
    requires
        0 <= k < current.len() <= last.len(),
        n <= last.len(),
        forall|i: int| 0 <= i < current.len() && i != k ==> last[i].hash == current[i].hash,
        last[k].hash != current[k].hash,
    ensures
        rows_commands(last, current, n) == single_change(last, current, k, n),
    decreases n,
{
    if n > 0 {
        let i = n - 1;
        lemma_single_change(last, current, k, i as nat);
        if i >= current.len() {
            assert(repeat(cleared_row(), (n - current.len()) as nat) == repeat(
                cleared_row(),
                (i - current.len()) as nat,
            ) + cleared_row());
        }
    }
}

/// Minimal redraw. Let the new frame be no longer than the frame on
/// screen, and let the rows that both hold have the same tokens but for row
/// `k`, whose hash changed. Then the redraw writes row `k` again, clears the
/// rows that the new frame no longer has, and touches no other row.
pub proof fn law_minimal_diff(last: FrameView, current: FrameView, k: int)
    requires
        last.rows_in_step(),
        current.rows_in_step(),
        0 <= k < current.rows.len() <= last.rows.len(),
        forall|i: int|
            0 <= i < current.rows.len() && i != k ==> last.rows[i].tokens
                == current.rows[i].tokens,
        last.rows[k].hash != current.rows[k].hash,
    ensures
        commit_commands(last, current) == seq![CommandView::CursorUp(last.cursor.row)] + repeat(
            kept_row(),
            k as nat,
        ) + rewritten_row(current.rows[k]) + repeat(
            kept_row(),
            (current.rows.len() - 1 - k) as nat,
        ) + repeat(cleared_row(), (last.rows.len() - current.rows.len()) as nat) + seq![
            CommandView::Flush,
        ],
{
    lemma_single_change(last.rows, current.rows, k, last.rows.len());
}

proof fn lemma_all_kept(last: Seq<RowView>, current: Seq<RowView>, n: nat)
    requires
        n <= last.len(),
        n <= current.len(),
        forall|i: int| 0 <= i < n ==> last[i].hash == current[i].hash,
    ensures
        rows_commands(last, current, n) == repeat(kept_row(), n),
    decreases n,
{
    if n > 0 {
        lemma_all_kept(last, current, (n - 1) as nat);
    }
}

/// The commands of a redraw that finds every row as it was.
pub open spec fn quiet_redraw(cursor_row: u16, rows: nat) -> Seq<CommandView> {
    seq![CommandView::CursorUp(cursor_row)] + repeat(kept_row(), rows) + seq![CommandView::Flush]
}

/// A redraw that finds every row as it was neither writes nor clears.
pub proof fn lemma_quiet_redraw_leaves_content_alone(cursor_row: u16, rows: nat)
    ensures
        leaves_content_alone(quiet_redraw(cursor_row, rows)),
{
    lemma_repeat_leaves_content_alone(kept_row(), rows);
}

/// A redraw between two frames with as many rows and the same hashes, row
/// by row, goes up, passes over every row, and flushes.
pub proof fn law_equal_hashes_redraw_nothing(last: FrameView, current: FrameView)
    requires
        last.rows.len() == current.rows.len(),
        forall|i: int| 0 <= i < last.rows.len() ==> last.rows[i].hash == current.rows[i].hash,
    ensures
        commit_commands(last, current) == quiet_redraw(last.cursor.row, last.rows.len()),
        leaves_content_alone(commit_commands(last, current)),
{
    lemma_all_kept(last.rows, current.rows, last.rows.len());
    lemma_quiet_redraw_leaves_content_alone(last.cursor.row, last.rows.len());
}

/// Idempotent redraw. When the frame on screen still fits the terminal and
/// the frame that was written holds, finished, the same tokens row by row,
/// the redraw neither writes nor clears anything: it moves the cursor,
/// advances line by line, and flushes.
pub proof fn law_idempotent_redraw(render_box: RenderBoxView, size: TerminalSize)
    requires
        render_box.wf(),
        render_box.last.fits(size),
        render_box.current.finish().rows.len() == render_box.last.rows.len(),
        forall|i: int|
            0 <= i < render_box.last.rows.len() ==> render_box.current.finish().rows[i].tokens
                == render_box.last.rows[i].tokens,
    ensures
        commit_commands(render_box.last.fit(size), render_box.current.finish()) == quiet_redraw(
            render_box.last.cursor.row,
            render_box.last.rows.len(),
        ),
        leaves_content_alone(
            commit_commands(render_box.last.fit(size), render_box.current.finish()),
        ),
{
    let last = render_box.last.fit(size);
    let current = render_box.current.finish();
    crate::frame_proofs::lemma_commit_row_in_step(render_box.current);
    assert forall|i: int| 0 <= i < last.rows.len() implies last.rows[i].hash
        == current.rows[i].hash by {
    }
    law_equal_hashes_redraw_nothing(last, current);
}

/// The same frame twice: a redraw from a frame to itself neither writes nor
/// clears anything.
pub proof fn law_same_frame_redraws_nothing(frame: FrameView)
    ensures
        commit_commands(frame, frame) == quiet_redraw(frame.cursor.row, frame.rows.len()),
        leaves_content_alone(commit_commands(frame, frame)),
{
    law_equal_hashes_redraw_nothing(frame, frame);
}

proof fn lemma_all_cleared(last: Seq<RowView>, n: nat)
    requires
        n <= last.len(),
    ensures
        rows_commands(last, Seq::<RowView>::empty(), n) == repeat(cleared_row(), n),
    decreases n,
{
    if n > 0 {
        lemma_all_cleared(last, (n - 1) as nat);
    }
}

/// Empty frame. A frame that nothing was written into has no row when it
/// is finished, and the redraw that brings it on screen clears every row of
/// the frame before it and writes nothing.
pub proof fn law_empty_frame(last: FrameView, size: TerminalSize)
    ensures
        FrameView::fresh(size).finish().rows.len() == 0,
        commit_commands(last, FrameView::fresh(size).finish()) == seq![
            CommandView::CursorUp(last.cursor.row),
        ] + repeat(cleared_row(), last.rows.len()) + seq![CommandView::Flush],
{
    lemma_all_cleared(last.rows, last.rows.len());
}

} // verus!

//! Properties of buffers that relate several operations, stated over
//! [`BufferModel`], the value that each operation's contract speaks of.
use crate::buffer::BufferModel;
use crate::history::{lemma_revert_apply, redo_chain, undo_chain, EditRecord};
use crate::lines::{lemma_line_bounds, lemma_line_of, line_count, line_len, line_of, line_start};
use vstd::prelude::*;

verus! {

/// An edit that a caller can ask of a buffer: `insert`, `remove`, or
/// `update_content`, which replaces the whole text.
pub enum EditCommand {
    Insert { position: int, text: Seq<char> },
    Remove { start: int, end: int },
    Replace { text: Seq<char> },
}

impl EditCommand {
    /// Whether the edit succeeds on text `t`.
    pub open spec fn valid_on(self, t: Seq<char>) -> bool {
        match self {
            EditCommand::Insert { position, .. } => 0 <= position <= t.len(),
            EditCommand::Remove { start, end } => 0 <= start <= end <= t.len(),
            EditCommand::Replace { .. } => true,
        }
    }

    /// Whether the edit, made on text `t`, is remembered: every insertion
    /// and removal is, a replacement only when it changes the text.
    pub open spec fn records_edit(self, t: Seq<char>) -> bool {
        match self {
            EditCommand::Replace { text } => text != t,
            _ => true,
        }
    }

    /// The buffer after the edit.
    pub open spec fn performed_on(self, m: BufferModel) -> BufferModel {
        match self {
            EditCommand::Insert { position, text } => m.inserted(position, text),
            EditCommand::Remove { start, end } => m.removed(start, end),
            EditCommand::Replace { text } => m.content_replaced(text),
        }
    }
}

/// The buffer after the edits `cmds`, first to last.
pub open spec fn perform_all(m: BufferModel, cmds: Seq<EditCommand>) -> BufferModel
    decreases cmds.len(),
{
    if cmds.len() == 0 {
        m
    } else {
        cmds.last().performed_on(perform_all(m, cmds.drop_last()))
    }
}

/// Whether each of the edits `cmds` succeeds on the text it meets.
pub open spec fn all_valid(m: BufferModel, cmds: Seq<EditCommand>) -> bool
    decreases cmds.len(),
{
    cmds.len() == 0 || (all_valid(m, cmds.drop_last()) && cmds.last().valid_on(
        perform_all(m, cmds.drop_last()).text,
    ))
}

/// The buffer after `undo` is called `n` times.
pub open spec fn undone_times(m: BufferModel, n: nat) -> BufferModel
    decreases n,
{
    if n == 0 {
        m
    } else {
        undone_times(m, (n - 1) as nat).undone()
    }
}

/// The buffer after `redo` is called `n` times.
pub open spec fn redone_times(m: BufferModel, n: nat) -> BufferModel
    decreases n,
{
    if n == 0 {
        m
    } else {
        redone_times(m, (n - 1) as nat).redone()
    }
}

/// The history of `m` is exact: undoing everything leads back to `origin`,
/// and redoing everything leads on to `target`.
pub open spec fn history_exact(m: BufferModel, origin: Seq<char>, target: Seq<char>) -> bool {
    undo_chain(m.text, m.undo, origin) && redo_chain(m.text, m.redo, target)
}

/// A new edit recorded exactly keeps the undo history exact, and leaves
/// nothing to redo.
proof fn lemma_record_exact(m: BufferModel, r: EditRecord, origin: Seq<char>)
    requires
        undo_chain(m.text, m.undo, origin),
        r.recorded_from(m.text),
    ensures
        history_exact(m.record(r), origin, m.record(r).text),
{
    lemma_revert_apply(r, m.text);
    let n = m.record(r);
    assert(n.undo.drop_last() =~= m.undo);
}

/// A buffer without history has an exact one.
pub proof fn lemma_fresh_exact(t: Seq<char>, file_path: Option<Seq<char>>)
    ensures
        history_exact(BufferModel::fresh(t, file_path), t, t),
{
}

/// Every edit keeps the undo history exact. One that is remembered adds one
/// record and leaves nothing to redo; a replacement that changes nothing
/// leaves text and history as they were.
pub proof fn lemma_command_exact(m: BufferModel, c: EditCommand, origin: Seq<char>)
    requires
        undo_chain(m.text, m.undo, origin),
        c.valid_on(m.text),
    ensures
        undo_chain(c.performed_on(m).text, c.performed_on(m).undo, origin),
        c.records_edit(m.text) ==> history_exact(c.performed_on(m), origin, c.performed_on(m).text)
            && c.performed_on(m).undo.len() == m.undo.len() + 1,
        !c.records_edit(m.text) ==> c.performed_on(m).text == m.text && c.performed_on(m).undo
            == m.undo && c.performed_on(m).redo == m.redo,
{
    match c {
        EditCommand::Insert { position, text } => {
            lemma_record_exact(m, EditRecord::Insert { position: position as nat, text }, origin);
        },
        EditCommand::Remove { start, end } => {
            lemma_record_exact(
                m,
                EditRecord::Delete {
                    start: start as nat,
                    end: end as nat,
                    text: m.text.subrange(start, end),
                },
                origin,
            );
        },
        EditCommand::Replace { text } => {
            if text != m.text {
                assert(m.text.subrange(0, m.text.len() as int) =~= m.text);
                lemma_record_exact(
                    m,
                    EditRecord::Replace {
                        start: 0,
                        end: m.text.len(),
                        text: m.text,
                        replacement: text,
                    },
                    origin,
                );
            }
        },
    }
}

/// With an exact history, `undo` succeeds and keeps the history exact.
pub proof fn lemma_undo_exact(m: BufferModel, origin: Seq<char>, target: Seq<char>)
    requires
        history_exact(m, origin, target),
        m.undo.len() > 0,
    ensures
        m.can_undo(),
        history_exact(m.undone(), origin, target),
        m.undone().undo.len() == m.undo.len() - 1,
        m.undone().redo.len() == m.redo.len() + 1,
{
    let n = m.undone();
    assert(n.redo.drop_last() =~= m.redo);
}

/// With an exact history, `redo` succeeds and keeps the history exact.
pub proof fn lemma_redo_exact(m: BufferModel, origin: Seq<char>, target: Seq<char>)
    requires
        history_exact(m, origin, target),
        m.redo.len() > 0,
    ensures
        m.can_redo(),
        history_exact(m.redone(), origin, target),
        m.redone().undo.len() == m.undo.len() + 1,
        m.redone().redo.len() == m.redo.len() - 1,
{
    let r = m.redo.last();
    lemma_revert_apply(r, m.text);
    let n = m.redone();
    assert(n.undo.drop_last() =~= m.undo);
}

/// Undoing `k` times from an exact history.
proof fn lemma_undo_times(m: BufferModel, origin: Seq<char>, target: Seq<char>, k: nat)
    requires
        history_exact(m, origin, target),
        k <= m.undo.len(),
    ensures
        history_exact(undone_times(m, k), origin, target),
        undone_times(m, k).undo.len() == m.undo.len() - k,
        undone_times(m, k).redo.len() == m.redo.len() + k,
        forall|j: nat| j < k ==> #[trigger] undone_times(m, j).can_undo(),
    decreases k,
{
    if k > 0 {
        lemma_undo_times(m, origin, target, (k - 1) as nat);
        lemma_undo_exact(undone_times(m, (k - 1) as nat), origin, target);
    }
}

/// Redoing `k` times from an exact history.
proof fn lemma_redo_times(m: BufferModel, origin: Seq<char>, target: Seq<char>, k: nat)
    requires
        history_exact(m, origin, target),
        k <= m.redo.len(),
    ensures
        history_exact(redone_times(m, k), origin, target),
        redone_times(m, k).undo.len() == m.undo.len() + k,
        redone_times(m, k).redo.len() == m.redo.len() - k,
        forall|j: nat| j < k ==> #[trigger] redone_times(m, j).can_redo(),
    decreases k,
{
    if k > 0 {
        lemma_redo_times(m, origin, target, (k - 1) as nat);
        lemma_redo_exact(redone_times(m, (k - 1) as nat), origin, target);
    }
}

/// Once nothing is left to undo, further `undo` calls change nothing.
proof fn lemma_undo_times_past(m: BufferModel, k: nat, n: nat)
    requires
        undone_times(m, k).undo.len() == 0,
        k <= n,
    ensures
        undone_times(m, n) == undone_times(m, k),
    decreases n - k,
{
    if n > k {
        lemma_undo_times_past(m, k, (n - 1) as nat);
    }
}

/// Once nothing is left to redo, further `redo` calls change nothing.
proof fn lemma_redo_times_past(m: BufferModel, k: nat, n: nat)
    requires
        redone_times(m, k).redo.len() == 0,
        k <= n,
    ensures
        redone_times(m, n) == redone_times(m, k),
    decreases n - k,
{
    if n > k {
        lemma_redo_times_past(m, k, (n - 1) as nat);
    }
}

/// Edits made one after another from a buffer without history leave an
/// exact history, with at most one record per edit and nothing to redo.
proof fn lemma_perform_all_exact(start: BufferModel, cmds: Seq<EditCommand>)
    requires
        start.undo.len() == 0,
        start.redo.len() == 0,
        all_valid(start, cmds),
    ensures
        history_exact(perform_all(start, cmds), start.text, perform_all(start, cmds).text),
        perform_all(start, cmds).redo.len() == 0,
        perform_all(start, cmds).undo.len() <= cmds.len(),
    decreases cmds.len(),
{
    if cmds.len() > 0 {
        let prev = cmds.drop_last();
        lemma_perform_all_exact(start, prev);
        lemma_command_exact(perform_all(start, prev), cmds.last(), start.text);
    }
}

/// Undo/redo round trip: after `n` edits (insertions, removals and
/// replacements of the whole text) made from a buffer without history (an
/// empty buffer, say), calling `undo` `n` times succeeds each time and gives
/// back the starting text with nothing left to undo; calling `redo` `n`
/// times after that succeeds each time and gives back the text that the
/// edits produced.
pub proof fn lemma_undo_redo_round_trip(start: BufferModel, cmds: Seq<EditCommand>)
    requires
        start.undo.len() == 0,
        start.redo.len() == 0,
        all_valid(start, cmds),
    ensures
        forall|k: nat| k < cmds.len() ==> #[trigger] undone_times(
            perform_all(start, cmds),
            k,
        ).can_undo(),
        undone_times(perform_all(start, cmds), cmds.len()).text == start.text,
        undone_times(perform_all(start, cmds), cmds.len()).undo.len() == 0,
        forall|k: nat| k < cmds.len() ==> #[trigger] redone_times(
            undone_times(perform_all(start, cmds), cmds.len()),
            k,
        ).can_redo(),
        redone_times(undone_times(perform_all(start, cmds), cmds.len()), cmds.len()).text
            == perform_all(start, cmds).text,
{
    let n = cmds.len();
    let m = perform_all(start, cmds);
    lemma_perform_all_exact(start, cmds);
    let k0 = m.undo.len();
    lemma_undo_times(m, start.text, m.text, k0);
    lemma_undo_times_past(m, k0, n);
    assert forall|k: nat| k < n implies #[trigger] undone_times(m, k).can_undo() by {
        if k >= k0 {
            lemma_undo_times_past(m, k0, k);
        }
    }
    let u = undone_times(m, n);
    lemma_redo_times(u, start.text, m.text, k0);
    lemma_redo_times_past(u, k0, n);
    assert forall|k: nat| k < n implies #[trigger] redone_times(u, k).can_redo() by {
        if k >= k0 {
            lemma_redo_times_past(u, k0, k);
        }
    }
}

/// Insert/remove inverse: removing what was just inserted succeeds and gives
/// back the text from before the insertion.
pub proof fn lemma_insert_remove_inverse(m: BufferModel, p: int, t: Seq<char>)
    requires
        0 <= p <= m.text.len(),
    ensures
        p <= p + t.len() <= m.inserted(p, t).text.len(),
        m.inserted(p, t).removed(p, p + t.len()).text == m.text,
{
    let a = m.inserted(p, t).text;
    assert(a.take(p) =~= m.text.take(p));
    assert(a.skip(p + t.len()) =~= m.text.skip(p));
    assert(m.inserted(p, t).removed(p, p + t.len()).text =~= m.text);
}

/// Redo invalidation: a new edit that is remembered, after an `undo` or at
/// any other time, leaves nothing to redo, so a `redo` right after it
/// succeeds and changes nothing.
pub proof fn lemma_new_edit_clears_redo(m: BufferModel, c: EditCommand)
    requires
        c.valid_on(m.text),
        c.records_edit(m.text),
    ensures
        c.performed_on(m).redo.len() == 0,
        c.performed_on(m).can_redo(),
        c.performed_on(m).redone() == c.performed_on(m),
{
}

/// Replacing the whole text by a different one, then calling `undo`, gives
/// back the old text and its history; `redo` after that gives the new text
/// again.
pub proof fn lemma_replacement_undo(m: BufferModel, t: Seq<char>)
    requires
        t != m.text,
    ensures
        m.content_replaced(t).text == t,
        m.content_replaced(t).can_undo(),
        m.content_replaced(t).undone().text == m.text,
        m.content_replaced(t).undone().undo == m.undo,
        m.content_replaced(t).undone().can_redo(),
        m.content_replaced(t).undone().redone().text == t,
{
    let r = EditRecord::Replace { start: 0, end: m.text.len(), text: m.text, replacement: t };
    assert(m.text.subrange(0, m.text.len() as int) =~= m.text);
    lemma_revert_apply(r, m.text);
    assert(r.apply(m.text) =~= t);
    assert(m.content_replaced(t).undone().undo =~= m.undo);
}

/// With nothing to undo, `undo` succeeds and changes nothing; with nothing
/// to redo, `redo` succeeds and changes nothing.
pub proof fn lemma_empty_history_no_op(m: BufferModel)
    ensures
        m.undo.len() == 0 ==> m.can_undo() && m.undone() == m,
        m.redo.len() == 0 ==> m.can_redo() && m.redone() == m,
{
}

/// With an exact history, `undo` followed by `redo` gives back the text from
/// before the `undo`, and `redo` followed by `undo` the text from before the
/// `redo`.
pub proof fn lemma_undo_redo_restore(m: BufferModel, origin: Seq<char>, target: Seq<char>)
    requires
        history_exact(m, origin, target),
    ensures
        m.undo.len() > 0 ==> m.can_undo() && m.undone().can_redo() && m.undone().redone().text
            == m.text,
        m.redo.len() > 0 ==> m.can_redo() && m.redone().can_undo() && m.redone().undone().text
            == m.text,
{
    if m.undo.len() > 0 {
        lemma_undo_exact(m, origin, target);
        lemma_redo_exact(m.undone(), origin, target);
    }
    if m.redo.len() > 0 {
        lemma_redo_exact(m, origin, target);
        lemma_undo_exact(m.redone(), origin, target);
        lemma_revert_apply(m.redo.last(), m.text);
    }
}

/// Line/column round trip: for every char index `i` of a text, the line and
/// column that `char_to_line_col` gives for it are accepted by
/// `line_col_to_char`, which gives back `i`.
pub proof fn lemma_line_col_round_trip(s: Seq<char>, i: int)
    requires
        0 <= i <= s.len(),
    ensures
        line_of(s, i) < line_count(s),
        0 <= i - line_start(s, line_of(s, i)) <= line_len(s, line_of(s, i)),
        line_start(s, line_of(s, i)) + (i - line_start(s, line_of(s, i))) == i,
{
    lemma_line_of(s, i);
    lemma_line_bounds(s, line_of(s, i));
}

/// An empty buffer has exactly one line, which is empty.
pub proof fn lemma_empty_buffer(file_path: Option<Seq<char>>)
    ensures
        BufferModel::fresh(seq![], file_path).text.len() == 0,
        line_count(BufferModel::fresh(seq![], file_path).text) == 1,
{
    assert(line_count(Seq::<char>::empty()) == 1);
}

} // verus!

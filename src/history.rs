//! Edit records and the state they act on.
//!
//! Every edit that a buffer makes on its own account is remembered as an
//! [`EditOperation`]. Undoing one applies its inverse, redoing one applies it
//! again; both rely on the record holding the exact text it concerns.
use vstd::prelude::*;

verus! {

/// An edit as remembered by the undo/redo history.
#[derive(Debug)]
pub enum EditOperation {
    /// `text` was inserted at char index `position`.
    Insert { position: usize, text: String },
    /// The chars of `[start, end)`, which were `text`, were removed.
    Delete { start: usize, end: usize, text: String },
    /// The chars of `[start, end)`, which were `text`, were replaced by
    /// `replacement`.
    Replace { start: usize, end: usize, text: String, replacement: String },
}

/// The mathematical value of an [`EditOperation`].
pub enum EditRecord {
    Insert { position: nat, text: Seq<char> },
    Delete { start: nat, end: nat, text: Seq<char> },
    Replace { start: nat, end: nat, text: Seq<char>, replacement: Seq<char> },
}

impl View for EditOperation {
    type V = EditRecord;

    open spec fn view(&self) -> EditRecord {
        match self {
            EditOperation::Insert { position, text } => EditRecord::Insert {
                position: *position as nat,
                text: text@,
            },
            EditOperation::Delete { start, end, text } => EditRecord::Delete {
                start: *start as nat,
                end: *end as nat,
                text: text@,
            },
            EditOperation::Replace { start, end, text, replacement } => EditRecord::Replace {
                start: *start as nat,
                end: *end as nat,
                text: text@,
                replacement: replacement@,
            },
        }
    }
}

impl Clone for EditOperation {
    fn clone(&self) -> (r: EditOperation)
        ensures
            r == *self,
    {
        match self {
            EditOperation::Insert { position, text } => EditOperation::Insert {
                position: *position,
                text: text.clone(),
            },
            EditOperation::Delete { start, end, text } => EditOperation::Delete {
                start: *start,
                end: *end,
                text: text.clone(),
            },
            EditOperation::Replace { start, end, text, replacement } => EditOperation::Replace {
                start: *start,
                end: *end,
                text: text.clone(),
                replacement: replacement.clone(),
            },
        }
    }
}

/// The views of a stack of operations.
pub open spec fn records(ops: Seq<EditOperation>) -> Seq<EditRecord> {
    ops.map_values(|op: EditOperation| op@)
}

impl EditRecord {
    /// Whether the edit can be made on `t`.
    pub open spec fn applies_to(self, t: Seq<char>) -> bool {
        match self {
            EditRecord::Insert { position, .. } => position <= t.len(),
            EditRecord::Delete { start, end, .. } => start <= end <= t.len(),
            EditRecord::Replace { start, end, .. } => start <= end <= t.len(),
        }
    }

    /// `t` after the edit.
    pub open spec fn apply(self, t: Seq<char>) -> Seq<char> {
        match self {
            EditRecord::Insert { position, text } => t.take(position as int) + text + t.skip(
                position as int,
            ),
            EditRecord::Delete { start, end, .. } => t.take(start as int) + t.skip(end as int),
            EditRecord::Replace { start, end, replacement, .. } => t.take(start as int)
                + replacement + t.skip(end as int),
        }
    }

    /// Whether the inverse of the edit can be made on `t`.
    pub open spec fn reverts_on(self, t: Seq<char>) -> bool {
        match self {
            EditRecord::Insert { position, text } => position + text.len() <= t.len(),
            EditRecord::Delete { start, .. } => start <= t.len(),
            EditRecord::Replace { start, replacement, .. } => start + replacement.len()
                <= t.len(),
        }
    }

    /// `t` after the inverse of the edit: an insertion is taken out again,
    /// removed text is put back, a replacement gives way to the text it
    /// replaced.
    pub open spec fn revert(self, t: Seq<char>) -> Seq<char> {
        match self {
            EditRecord::Insert { position, text } => t.take(position as int) + t.skip(
                position + text.len() as int,
            ),
            EditRecord::Delete { start, text, .. } => t.take(start as int) + text + t.skip(
                start as int,
            ),
            EditRecord::Replace { start, text, replacement, .. } => t.take(start as int) + text
                + t.skip(start + replacement.len() as int),
        }
    }

    /// Whether the record describes exactly an edit made on `t`: it can be
    /// made there, and a removal or a replacement holds the very text it
    /// takes out.
    pub open spec fn recorded_from(self, t: Seq<char>) -> bool {
        match self {
            EditRecord::Insert { position, .. } => position <= t.len(),
            EditRecord::Delete { start, end, text } => start <= end <= t.len() && text
                == t.subrange(start as int, end as int),
            EditRecord::Replace { start, end, text, .. } => start <= end <= t.len() && text
                == t.subrange(start as int, end as int),
        }
    }
}

/// An edit recorded exactly can be reverted on its result, and reverting it
/// gives back the text it was made on.
pub proof fn lemma_revert_apply(r: EditRecord, t: Seq<char>)
    requires
        r.recorded_from(t),
    ensures
        r.applies_to(t),
        r.reverts_on(r.apply(t)),
        r.revert(r.apply(t)) == t,
{
    match r {
        EditRecord::Insert { position, text } => {
            let p = position as int;
            let a = r.apply(t);
            assert(a.take(p) =~= t.take(p));
            assert(a.skip(p + text.len() as int) =~= t.skip(p));
            assert(r.revert(a) =~= t);
        },
        EditRecord::Delete { start, end, text } => {
            let a = r.apply(t);
            assert(a.take(start as int) =~= t.take(start as int));
            assert(a.skip(start as int) =~= t.skip(end as int));
            assert(r.revert(a) =~= t);
        },
        EditRecord::Replace { start, end, text, replacement } => {
            let a = r.apply(t);
            let q = start + replacement.len() as int;
            assert(a.take(start as int) =~= t.take(start as int));
            assert(a.skip(q) =~= t.skip(end as int));
            assert(r.revert(a) =~= t);
        },
    }
}

/// `undo` is an exact account of how `t` came about from `origin`: taking
/// the records back from the top, each one reverts onto a text from which it
/// was recorded exactly and which it turns into the text after it.
pub open spec fn undo_chain(t: Seq<char>, undo: Seq<EditRecord>, origin: Seq<char>) -> bool
    decreases undo.len(),
{
    if undo.len() == 0 {
        t == origin
    } else {
        let r = undo.last();
        let prev = r.revert(t);
        &&& r.reverts_on(t)
        &&& r.recorded_from(prev)
        &&& r.apply(prev) == t
        &&& undo_chain(prev, undo.drop_last(), origin)
    }
}

/// `redo` leads exactly from `t` to `target`: taking the records from the
/// top, each one was recorded from the text it is applied to.
pub open spec fn redo_chain(t: Seq<char>, redo: Seq<EditRecord>, target: Seq<char>) -> bool
    decreases redo.len(),
{
    if redo.len() == 0 {
        t == target
    } else {
        let r = redo.last();
        r.recorded_from(t) && redo_chain(r.apply(t), redo.drop_last(), target)
    }
}

} // verus!

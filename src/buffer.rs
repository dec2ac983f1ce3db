//! The text buffer: a rope of chars, the file it belongs to, whether it has
//! unsaved changes, and its undo/redo history.
use crate::error::BufferError;
use crate::history::{records, EditOperation, EditRecord};
use crate::lines::{
    lemma_line_bounds, lemma_line_of, lemma_line_order, line_count, line_len, line_of,
    line_start, line_text,
};
use crate::rope_text::{
    rope_char_to_line, rope_chars, rope_clone, rope_from_str, rope_insert, rope_len_chars, rope_len_lines,
    rope_line_to_char, rope_new, rope_remove, rope_slice,
};
use ropey::Rope;
use vstd::prelude::*;

verus! {

/// The mathematical value of a [`TextBuffer`].
pub struct BufferModel {
    /// The chars of the text.
    pub text: Seq<char>,
    /// The file the buffer belongs to, if any.
    pub file_path: Option<Seq<char>>,
    /// Whether the text changed since it was last loaded or saved.
    pub modified: bool,
    /// Edits that can be undone, the latest last.
    pub undo: Seq<EditRecord>,
    /// Undone edits that can be redone, the latest undone last.
    pub redo: Seq<EditRecord>,
}

impl BufferModel {
    /// A buffer that holds `text`, with no history and no unsaved changes.
    pub open spec fn fresh(text: Seq<char>, file_path: Option<Seq<char>>) -> BufferModel {
        BufferModel { text, file_path, modified: false, undo: seq![], redo: seq![] }
    }

    /// The state after a new edit `r`: the edit is made and remembered, and
    /// whatever could be redone is forgotten.
    pub open spec fn record(self, r: EditRecord) -> BufferModel {
        BufferModel {
            text: r.apply(self.text),
            modified: true,
            undo: self.undo.push(r),
            redo: seq![],
            ..self
        }
    }

    /// The state after inserting `t` at char index `p`.
    pub open spec fn inserted(self, p: int, t: Seq<char>) -> BufferModel {
        self.record(EditRecord::Insert { position: p as nat, text: t })
    }

    /// The state after removing the chars of `[start, end)`.
    pub open spec fn removed(self, start: int, end: int) -> BufferModel {
        self.record(
            EditRecord::Delete {
                start: start as nat,
                end: end as nat,
                text: self.text.subrange(start, end),
            },
        )
    }

    /// The state after the whole text is replaced by `t`. A change is
    /// remembered as one edit: the whole old text, `[0, len)`, replaced by
    /// `t`.
    pub open spec fn content_replaced(self, t: Seq<char>) -> BufferModel {
        if t == self.text {
            BufferModel { modified: true, ..self }
        } else {
            self.record(
                EditRecord::Replace {
                    start: 0,
                    end: self.text.len(),
                    text: self.text,
                    replacement: t,
                },
            )
        }
    }

    /// Whether `undo` succeeds: nothing is left to undo, or the latest
    /// edit's inverse can be made on the text.
    pub open spec fn can_undo(self) -> bool {
        self.undo.len() == 0 || self.undo.last().reverts_on(self.text)
    }

    /// The state after `undo`: the latest edit is reverted and moves, as it
    /// is, to the redo history. With nothing to undo, nothing changes.
    pub open spec fn undone(self) -> BufferModel {
        if self.undo.len() == 0 {
            self
        } else {
            BufferModel {
                text: self.undo.last().revert(self.text),
                modified: true,
                undo: self.undo.drop_last(),
                redo: self.redo.push(self.undo.last()),
                ..self
            }
        }
    }

    /// Whether `redo` succeeds: nothing is left to redo, or the latest
    /// undone edit can be made on the text.
    pub open spec fn can_redo(self) -> bool {
        self.redo.len() == 0 || self.redo.last().applies_to(self.text)
    }

    /// The state after `redo`: the latest undone edit is made again and
    /// moves, as it is, back to the undo history. With nothing to redo,
    /// nothing changes.
    pub open spec fn redone(self) -> BufferModel {
        if self.redo.len() == 0 {
            self
        } else {
            BufferModel {
                text: self.redo.last().apply(self.text),
                modified: true,
                undo: self.undo.push(self.redo.last()),
                redo: self.redo.drop_last(),
                ..self
            }
        }
    }
}

/// An editable text with line/column addressing and undo/redo.
#[derive(Debug)]
pub struct TextBuffer {
    /// The text, stored as a rope.
    pub content: Rope,
    /// The file the buffer belongs to, if any.
    pub file_path: Option<String>,
    /// Whether the text changed since it was last loaded or saved.
    pub modified: bool,
    /// Edits that can be undone, the latest last.
    undo_stack: Vec<EditOperation>,
    /// Undone edits that can be redone, the latest undone last.
    redo_stack: Vec<EditOperation>,
}

/// The chars of a file path.
pub open spec fn path_view(p: Option<String>) -> Option<Seq<char>> {
    match p {
        Some(s) => Some(s@),
        None => None,
    }
}

impl View for TextBuffer {
    type V = BufferModel;

    closed spec fn view(&self) -> BufferModel {
        BufferModel {
            text: rope_chars(self.content),
            file_path: path_view(self.file_path),
            modified: self.modified,
            undo: records(self.undo_stack@),
            redo: records(self.redo_stack@),
        }
    }
}

impl Clone for TextBuffer {
    /// A buffer with the same text, file, unsaved-changes flag and history.
    fn clone(&self) -> (r: TextBuffer)
        ensures
            r@ == self@,
    {
        let file_path = match &self.file_path {
            Some(p) => Some(p.clone()),
            None => None,
        };
        let r = TextBuffer {
            content: rope_clone(&self.content),
            file_path,
            modified: self.modified,
            undo_stack: self.undo_stack.clone(),
            redo_stack: self.redo_stack.clone(),
        };
        proof {
            assert(r.undo_stack@ =~= self.undo_stack@);
            assert(r.redo_stack@ =~= self.redo_stack@);
        }
        r
    }
}

impl Default for TextBuffer {
    fn default() -> (r: TextBuffer)
        ensures
            r@ == BufferModel::fresh(seq![], None),
    {
        TextBuffer::new()
    }
}

impl TextBuffer {
    /// An empty buffer that belongs to no file.
    pub fn new() -> (r: TextBuffer)
        ensures
            r@ == BufferModel::fresh(seq![], None),
            line_count(r@.text) == 1,
    {
        let r = TextBuffer {
            content: rope_new(),
            file_path: None,
            modified: false,
            undo_stack: Vec::new(),
            redo_stack: Vec::new(),
        };
        proof {
            assert(records(r.undo_stack@) =~= seq![]);
            assert(line_count(r@.text) == 1);
        }
        r
    }

    /// A buffer that holds `content`, belongs to no file, and has no history
    /// and no unsaved changes.
    pub fn from_str(content: &str) -> (r: TextBuffer)
        ensures
            r@ == BufferModel::fresh(content@, None),
    {
        let r = TextBuffer {
            content: rope_from_str(content),
            file_path: None,
            modified: false,
            undo_stack: Vec::new(),
            redo_stack: Vec::new(),
        };
        proof {
            assert(records(r.undo_stack@) =~= seq![]);
        }
        r
    }

    /// A buffer for text `content` just read from the file at `path`: it
    /// belongs to that file and has no history and no unsaved changes.
    pub fn from_loaded(path: String, content: &str) -> (r: TextBuffer)
        ensures
            r@ == BufferModel::fresh(content@, Some(path@)),
    {
        let mut r = TextBuffer::from_str(content);
        r.file_path = Some(path);
        r
    }

    /// The file that `save` writes to.
    ///
    /// Fails with `NoAssociatedPath` when the buffer belongs to no file.
    pub fn save_target(&self) -> (r: Result<String, BufferError>)
        ensures
            r is Ok <==> self@.file_path is Some,
            r matches Ok(p) ==> self@.file_path == Some(p@),
            r is Err ==> r == Err::<String, BufferError>(BufferError::NoAssociatedPath),
    {
        match &self.file_path {
            Some(p) => Ok(p.clone()),
            None => Err(BufferError::NoAssociatedPath),
        }
    }

    /// Records that the text was just written to the file at `path`: the
    /// buffer now belongs to that file and has no unsaved changes.
    pub fn mark_saved(&mut self, path: String)
        ensures
            final(self)@ == (BufferModel {
                file_path: Some(path@),
                modified: false,
                ..old(self)@
            }),
    {
        self.file_path = Some(path);
        self.modified = false;
    }

    /// Inserts `text` at `char_idx` without touching the history.
    fn apply_insert(&mut self, char_idx: usize, text: &str)
        requires
            char_idx <= old(self)@.text.len(),
        ensures
            final(self)@ == (BufferModel {
                text: old(self)@.text.take(char_idx as int) + text@ + old(self)@.text.skip(
                    char_idx as int,
                ),
                modified: true,
                ..old(self)@
            }),
    {
        rope_insert(&mut self.content, char_idx, text);
        self.modified = true;
    }

    /// Removes the chars of `[start, end)` without touching the history.
    fn apply_remove(&mut self, start: usize, end: usize)
        requires
            start <= end <= old(self)@.text.len(),
        ensures
            final(self)@ == (BufferModel {
                text: old(self)@.text.take(start as int) + old(self)@.text.skip(end as int),
                modified: true,
                ..old(self)@
            }),
    {
        rope_remove(&mut self.content, start, end);
        self.modified = true;
    }

    /// Remembers `op` as the latest edit and forgets what could be redone.
    fn push_edit(&mut self, op: EditOperation)
        ensures
            final(self)@ == (BufferModel {
                undo: old(self)@.undo.push(op@),
                redo: seq![],
                ..old(self)@
            }),
    {
        let ghost old_undo = self.undo_stack@;
        self.undo_stack.push(op);
        self.redo_stack.clear();
        proof {
            assert(records(self.undo_stack@) =~= records(old_undo).push(op@));
            assert(records(self.redo_stack@) =~= seq![]);
        }
    }

    /// Inserts `text` at char index `char_idx`, as a new edit.
    ///
    /// Fails with `OutOfBounds`, changing nothing, when `char_idx` is past
    /// the end of the text.
    pub fn insert(&mut self, char_idx: usize, text: &str) -> (r: Result<(), BufferError>)
        ensures
            r is Ok <==> char_idx <= old(self)@.text.len(),
            r is Ok ==> final(self)@ == old(self)@.inserted(char_idx as int, text@),
            r is Err ==> r == Err::<(), BufferError>(BufferError::OutOfBounds) && final(self)@
                == old(self)@,
    {
        if char_idx <= rope_len_chars(&self.content) {
            self.push_edit(EditOperation::Insert { position: char_idx, text: text.to_owned() });
            self.apply_insert(char_idx, text);
            Ok(())
        } else {
            Err(BufferError::OutOfBounds)
        }
    }

    /// Removes the chars of `[char_start, char_end)`, as a new edit that
    /// remembers the removed text.
    ///
    /// Fails with `OutOfBounds`, changing nothing, unless
    /// `char_start <= char_end <= len_chars()`.
    pub fn remove(&mut self, char_start: usize, char_end: usize) -> (r: Result<(), BufferError>)
        ensures
            r is Ok <==> char_start <= char_end <= old(self)@.text.len(),
            r is Ok ==> final(self)@ == old(self)@.removed(char_start as int, char_end as int),
            r is Err ==> r == Err::<(), BufferError>(BufferError::OutOfBounds) && final(self)@
                == old(self)@,
    {
        if char_start <= char_end && char_end <= rope_len_chars(&self.content) {
            let removed = rope_slice(&self.content, char_start, char_end);
            self.push_edit(EditOperation::Delete { start: char_start, end: char_end, text: removed });
            self.apply_remove(char_start, char_end);
            Ok(())
        } else {
            Err(BufferError::OutOfBounds)
        }
    }

    /// Reverts the latest edit and makes it available to `redo`. With
    /// nothing to undo, succeeds and changes nothing.
    ///
    /// Fails with `OutOfBounds`, changing nothing, when the latest edit's
    /// inverse does not fit the text. A history built by `insert`,
    /// `remove`, `update_content`, `undo` and `redo` is exact, and then
    /// `undo` always succeeds (see `crate::laws`).
    pub fn undo(&mut self) -> (r: Result<(), BufferError>)
        ensures
            r is Ok <==> old(self)@.can_undo(),
            r is Ok ==> final(self)@ == old(self)@.undone(),
            r is Err ==> r == Err::<(), BufferError>(BufferError::OutOfBounds) && final(self)@
                == old(self)@,
    {
        let n = self.undo_stack.len();
        if n == 0 {
            return Ok(());
        }
        let len = rope_len_chars(&self.content);
        let fits = match &self.undo_stack[n - 1] {
            EditOperation::Insert { position, text } => {
                let k = text.as_str().unicode_len();
                *position <= len && k <= len - *position
            },
            EditOperation::Delete { start, .. } => *start <= len,
            EditOperation::Replace { start, replacement, .. } => {
                let k = replacement.as_str().unicode_len();
                *start <= len && k <= len - *start
            },
        };
        if !fits {
            return Err(BufferError::OutOfBounds);
        }
        let ghost before = self@;
        match self.undo_stack.pop() {
            Some(op) => {
                proof {
                    assert(records(self.undo_stack@) =~= before.undo.drop_last());
                    assert(op@ == before.undo.last());
                }
                match &op {
                    EditOperation::Insert { position, text } => {
                        let k = text.as_str().unicode_len();
                        self.apply_remove(*position, *position + k);
                    },
                    EditOperation::Delete { start, text, .. } => {
                        self.apply_insert(*start, text.as_str());
                    },
                    EditOperation::Replace { start, text, replacement, .. } => {
                        let k = replacement.as_str().unicode_len();
                        self.apply_remove(*start, *start + k);
                        self.apply_insert(*start, text.as_str());
                    },
                }
                self.redo_stack.push(op);
                proof {
                    assert(records(self.redo_stack@) =~= before.redo.push(op@));
                    assert(self@.text =~= before.undone().text);
                }
                Ok(())
            },
            None => Ok(()),
        }
    }

    /// Makes again the latest undone edit and returns it to the undo
    /// history. With nothing to redo, succeeds and changes nothing.
    ///
    /// Fails with `OutOfBounds`, changing nothing, when the edit does not
    /// fit the text. A history built by `insert`, `remove`,
    /// `update_content`, `undo` and `redo` is exact, and then `redo` always
    /// succeeds (see `crate::laws`).
    pub fn redo(&mut self) -> (r: Result<(), BufferError>)
        ensures
            r is Ok <==> old(self)@.can_redo(),
            r is Ok ==> final(self)@ == old(self)@.redone(),
            r is Err ==> r == Err::<(), BufferError>(BufferError::OutOfBounds) && final(self)@
                == old(self)@,
    {
        let n = self.redo_stack.len();
        if n == 0 {
            return Ok(());
        }
        let len = rope_len_chars(&self.content);
        let fits = match &self.redo_stack[n - 1] {
            EditOperation::Insert { position, .. } => *position <= len,
            EditOperation::Delete { start, end, .. } => *start <= *end && *end <= len,
            EditOperation::Replace { start, end, .. } => *start <= *end && *end <= len,
        };
        if !fits {
            return Err(BufferError::OutOfBounds);
        }
        let ghost before = self@;
        match self.redo_stack.pop() {
            Some(op) => {
                proof {
                    assert(records(self.redo_stack@) =~= before.redo.drop_last());
                    assert(op@ == before.redo.last());
                }
                match &op {
                    EditOperation::Insert { position, text } => {
                        self.apply_insert(*position, text.as_str());
                    },
                    EditOperation::Delete { start, end, .. } => {
                        self.apply_remove(*start, *end);
                    },
                    EditOperation::Replace { start, end, replacement, .. } => {
                        self.apply_remove(*start, *end);
                        self.apply_insert(*start, replacement.as_str());
                    },
                }
                self.undo_stack.push(op);
                proof {
                    assert(records(self.undo_stack@) =~= before.undo.push(op@));
                    assert(self@.text =~= before.redone().text);
                }
                Ok(())
            },
            None => Ok(()),
        }
    }

    /// Replaces the whole text by `new_content`. When that changes the
    /// text, the change is remembered as one edit, which `undo` reverts to
    /// the old text and `redo` makes again, and what could be redone is
    /// forgotten. Always succeeds.
    pub fn update_content(&mut self, new_content: &str) -> (r: Result<(), BufferError>)
        ensures
            r is Ok,
            final(self)@ == old(self)@.content_replaced(new_content@),
            final(self)@.text == new_content@,
    {
        let len = rope_len_chars(&self.content);
        let old_content = rope_slice(&self.content, 0, len);
        let replacement = new_content.to_owned();
        proof {
            assert(old_content@ =~= self@.text);
        }
        let changed = !(old_content == replacement);
        if changed {
            self.push_edit(
                EditOperation::Replace { start: 0, end: len, text: old_content, replacement },
            );
        }
        self.content = rope_from_str(new_content);
        self.modified = true;
        proof {
            if changed {
                assert(self@.text =~= old(self)@.content_replaced(new_content@).text);
            }
        }
        Ok(())
    }

    /// Number of chars of the text.
    pub fn len_chars(&self) -> (n: usize)
        ensures
            n == self@.text.len(),
    {
        rope_len_chars(&self.content)
    }

    /// Number of lines of the text; an empty text has one, empty, line.
    pub fn len_lines(&self) -> (n: usize)
        ensures
            n == line_count(self@.text),
            n >= 1,
    {
        rope_len_lines(&self.content)
    }

    /// Whether the text has no chars.
    pub fn is_empty(&self) -> (b: bool)
        ensures
            b == (self@.text.len() == 0),
    {
        rope_len_chars(&self.content) == 0
    }

    /// A copy of the chars of `[char_start, char_end)`.
    ///
    /// Fails with `OutOfBounds` unless `char_start <= char_end <= len_chars()`.
    pub fn slice(&self, char_start: usize, char_end: usize) -> (r: Result<String, BufferError>)
        ensures
            r is Ok <==> char_start <= char_end <= self@.text.len(),
            r matches Ok(s) ==> s@ == self@.text.subrange(char_start as int, char_end as int),
            r is Err ==> r == Err::<String, BufferError>(BufferError::OutOfBounds),
    {
        if char_start <= char_end && char_end <= rope_len_chars(&self.content) {
            Ok(rope_slice(&self.content, char_start, char_end))
        } else {
            Err(BufferError::OutOfBounds)
        }
    }

    /// The text of line `line_idx`, without the line feed that ends it.
    ///
    /// Fails with `OutOfBounds` when `line_idx >= len_lines()`.
    pub fn line(&self, line_idx: usize) -> (r: Result<String, BufferError>)
        ensures
            r is Ok <==> line_idx < line_count(self@.text),
            r matches Ok(s) ==> s@ == line_text(self@.text, line_idx as nat),
            r is Err ==> r == Err::<String, BufferError>(BufferError::OutOfBounds),
    {
        let lines = rope_len_lines(&self.content);
        if line_idx < lines {
            let start = rope_line_to_char(&self.content, line_idx);
            let end = if line_idx + 1 < lines {
                proof {
                    lemma_line_order(self@.text, line_idx as nat);
                }
                rope_line_to_char(&self.content, line_idx + 1) - 1
            } else {
                proof {
                    lemma_line_bounds(self@.text, line_idx as nat);
                }
                rope_len_chars(&self.content)
            };
            Ok(rope_slice(&self.content, start, end))
        } else {
            Err(BufferError::OutOfBounds)
        }
    }

    /// The line of char index `char_idx` and its column: its offset in chars
    /// from the start of that line.
    ///
    /// Fails with `OutOfBounds` when `char_idx > len_chars()`.
    pub fn char_to_line_col(&self, char_idx: usize) -> (r: Result<(usize, usize), BufferError>)
        ensures
            r is Ok <==> char_idx <= self@.text.len(),
            r matches Ok(lc) ==> lc.0 == line_of(self@.text, char_idx as int) && lc.1 == char_idx
                - line_start(self@.text, lc.0 as nat),
            r is Err ==> r == Err::<(usize, usize), BufferError>(BufferError::OutOfBounds),
    {
        if char_idx <= rope_len_chars(&self.content) {
            proof {
                lemma_line_of(self@.text, char_idx as int);
            }
            let line_idx = rope_char_to_line(&self.content, char_idx);
            let line_char_idx = rope_line_to_char(&self.content, line_idx);
            Ok((line_idx, char_idx - line_char_idx))
        } else {
            Err(BufferError::OutOfBounds)
        }
    }

    /// The char index at column `col` of line `line`. A column may reach the
    /// line's length, its line feed included.
    ///
    /// Fails with `OutOfBounds` when `line >= len_lines()` or `col` exceeds
    /// the line's length.
    pub fn line_col_to_char(&self, line: usize, col: usize) -> (r: Result<usize, BufferError>)
        ensures
            r is Ok <==> line < line_count(self@.text) && col <= line_len(self@.text, line as nat),
            r matches Ok(i) ==> i == line_start(self@.text, line as nat) + col,
            r is Err ==> r == Err::<usize, BufferError>(BufferError::OutOfBounds),
    {
        let lines = rope_len_lines(&self.content);
        if line < lines {
            proof {
                lemma_line_bounds(self@.text, line as nat);
            }
            let line_char_idx = rope_line_to_char(&self.content, line);
            let line_end = if line + 1 < lines {
                rope_line_to_char(&self.content, line + 1)
            } else {
                rope_len_chars(&self.content)
            };
            if col <= line_end - line_char_idx {
                Ok(line_char_idx + col)
            } else {
                Err(BufferError::OutOfBounds)
            }
        } else {
            Err(BufferError::OutOfBounds)
        }
    }
}

} // verus!

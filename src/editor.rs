//! Logic of the editor pane that does not depend on how it is drawn.
use crate::buffer::TextBuffer;
use crate::lines::{line_of, line_start};
use vstd::prelude::*;

verus! {

/// The editor pane, which shows one buffer and a cursor in it.
#[derive(Debug)]
pub struct EditorView;

impl EditorView {
    /// The line and column (both from 0) to show for a cursor at char index
    /// `cursor`. A cursor past the end of the text has no position of its
    /// own; the last one shown, `last`, stays.
    pub fn cursor_line_col(buffer: &TextBuffer, cursor: usize, last: (usize, usize)) -> (r: (
        usize,
        usize,
    ))
        ensures
            cursor <= buffer@.text.len() ==> r.0 == line_of(buffer@.text, cursor as int) && r.1
                == cursor - line_start(buffer@.text, r.0 as nat),
            cursor > buffer@.text.len() ==> r == last,
    {
        match buffer.char_to_line_col(cursor) {
            Ok(lc) => lc,
            Err(_) => last,
        }
    }
}

} // verus!

//! The rope that stores a buffer's text, seen as the sequence of chars it
//! holds. The rope itself is ropey's; each operation the buffer uses is a
//! thin wrapper whose contract states what ropey documents for it.
//!
//! Ropey is built without its `cr_lines` and `unicode_lines` features, so
//! its only line break is the line feed (a CR LF pair counts once, by its
//! LF). Its line queries then agree with the line model of `crate::lines`.
use crate::lines::{line_count, line_start, newlines};
use ropey::Rope;
use vstd::prelude::*;

verus! {

#[verifier::external_type_specification]
#[verifier::external_body]
pub struct ExRope(Rope);

/// The chars a rope holds, in order.
pub uninterp spec fn rope_chars(r: Rope) -> Seq<char>;

/// Relies on `Rope::new`: an empty rope.
#[verifier::external_body]
pub(crate) fn rope_new() -> (r: Rope)
    ensures
        rope_chars(r) == Seq::<char>::empty(),
{
    Rope::new()
}

/// Relies on `Rope::from_str`: a rope that holds the chars of `text`.
#[verifier::external_body]
pub(crate) fn rope_from_str(text: &str) -> (r: Rope)
    ensures
        rope_chars(r) == text@,
{
    Rope::from_str(text)
}

/// Relies on `Rope`'s `Clone`: a rope that holds the same chars.
#[verifier::external_body]
pub(crate) fn rope_clone(r: &Rope) -> (c: Rope)
    ensures
        rope_chars(c) == rope_chars(*r),
{
    r.clone()
}

/// Relies on `Rope::len_chars`: the number of chars.
#[verifier::external_body]
pub(crate) fn rope_len_chars(r: &Rope) -> (n: usize)
    ensures
        n == rope_chars(*r).len(),
{
    r.len_chars()
}

/// Relies on `Rope::len_lines`: one more than the number of line breaks.
#[verifier::external_body]
pub(crate) fn rope_len_lines(r: &Rope) -> (n: usize)
    ensures
        n == line_count(rope_chars(*r)),
{
    r.len_lines()
}

/// Relies on `Rope::insert`, which panics when `char_idx > len_chars()`:
/// splices `text` in at `char_idx`.
#[verifier::external_body]
pub(crate) fn rope_insert(r: &mut Rope, char_idx: usize, text: &str)
    requires
        char_idx <= rope_chars(*old(r)).len(),
    ensures
        rope_chars(*final(r)) == rope_chars(*old(r)).take(char_idx as int) + text@
            + rope_chars(*old(r)).skip(char_idx as int),
{
    r.insert(char_idx, text)
}

/// Relies on `Rope::remove`, which panics unless `start <= end <= len_chars()`:
/// takes out the chars of `[start, end)`.
#[verifier::external_body]
pub(crate) fn rope_remove(r: &mut Rope, start: usize, end: usize)
    requires
        start <= end <= rope_chars(*old(r)).len(),
    ensures
        rope_chars(*final(r)) == rope_chars(*old(r)).take(start as int) + rope_chars(
            *old(r),
        ).skip(end as int),
{
    r.remove(start..end)
}

/// Relies on `Rope::slice`, which panics unless `start <= end <= len_chars()`,
/// and on the slice's `Display`: the chars of `[start, end)` as a string.
#[verifier::external_body]
pub(crate) fn rope_slice(r: &Rope, start: usize, end: usize) -> (s: String)
    requires
        start <= end <= rope_chars(*r).len(),
    ensures
        s@ == rope_chars(*r).subrange(start as int, end as int),
{
    r.slice(start..end).to_string()
}

/// Relies on `Rope::char_to_line`, which panics when `char_idx > len_chars()`:
/// the number of line breaks before `char_idx`.
#[verifier::external_body]
pub(crate) fn rope_char_to_line(r: &Rope, char_idx: usize) -> (l: usize)
    requires
        char_idx <= rope_chars(*r).len(),
    ensures
        l == newlines(rope_chars(*r).take(char_idx as int)),
{
    r.char_to_line(char_idx)
}

/// Relies on `Rope::line_to_char`, which panics when `line_idx > len_lines()`:
/// the char index at which line `line_idx` starts.
#[verifier::external_body]
pub(crate) fn rope_line_to_char(r: &Rope, line_idx: usize) -> (c: usize)
    requires
        line_idx < line_count(rope_chars(*r)),
    ensures
        c == line_start(rope_chars(*r), line_idx as nat),
{
    r.line_to_char(line_idx)
}

} // verus!

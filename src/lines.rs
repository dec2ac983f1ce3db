//! Lines of a character sequence. A line ends just after a line feed
//! (`'\n'`), which belongs to the line it ends; the last line is whatever
//! follows the last line feed, possibly nothing. So a text always has one
//! line more than it has line feeds.
use vstd::prelude::*;

verus! {

/// Number of line feeds in `s`.
pub open spec fn newlines(s: Seq<char>) -> nat
    decreases s.len(),
{
    if s.len() == 0 {
        0
    } else {
        newlines(s.drop_last()) + if s.last() == '\n' {
            1nat
        } else {
            0nat
        }
    }
}

/// Number of lines of `s`.
pub open spec fn line_count(s: Seq<char>) -> nat {
    newlines(s) + 1
}

/// The line that char index `i` lies on: the line feeds before it.
pub open spec fn line_of(s: Seq<char>, i: int) -> nat {
    newlines(s.take(i))
}

/// Char index at which line `l` of `s` starts: 0 for the first line, else
/// just after the `l`-th line feed. Meaningful for `l < line_count(s)`.
pub open spec fn line_start(s: Seq<char>, l: nat) -> int
    decreases s.len(),
{
    if l == 0 || s.len() == 0 {
        0
    } else if newlines(s.drop_last()) >= l {
        line_start(s.drop_last(), l)
    } else {
        s.len() as int
    }
}

/// Char index just past line `l`, its line feed included.
pub open spec fn line_end(s: Seq<char>, l: nat) -> int {
    if l + 1 < line_count(s) {
        line_start(s, l + 1)
    } else {
        s.len() as int
    }
}

/// Number of chars of line `l`, its line feed included.
pub open spec fn line_len(s: Seq<char>, l: nat) -> int {
    line_end(s, l) - line_start(s, l)
}

/// Text of line `l`, without the line feed that ends it.
pub open spec fn line_text(s: Seq<char>, l: nat) -> Seq<char> {
    if l + 1 < line_count(s) {
        s.subrange(line_start(s, l), line_start(s, l + 1) - 1)
    } else {
        s.subrange(line_start(s, l), s.len() as int)
    }
}

/// Counting line feeds in a prefix one char at a time.
pub proof fn lemma_newlines_take_step(s: Seq<char>, i: int)
    requires
        0 <= i < s.len(),
    ensures
        newlines(s.take(i + 1)) == newlines(s.take(i)) + if s[i] == '\n' {
            1nat
        } else {
            0nat
        },
{
    assert(s.take(i + 1).drop_last() =~= s.take(i));
}

/// A longer prefix holds at least as many line feeds; the whole text is the
/// longest prefix.
pub proof fn lemma_newlines_take_mono(s: Seq<char>, i: int, j: int)
    requires
        0 <= i <= j <= s.len(),
    ensures
        newlines(s.take(i)) <= newlines(s.take(j)),
        newlines(s.take(s.len() as int)) == newlines(s),
    decreases j - i,
{
    assert(s.take(s.len() as int) =~= s);
    if i < j {
        lemma_newlines_take_step(s, j - 1);
        lemma_newlines_take_mono(s, i, j - 1);
    }
}

/// Where line `l` starts: within the text, after exactly `l` line feeds,
/// and just after one of them unless it is the first line.
pub proof fn lemma_line_start(s: Seq<char>, l: nat)
    requires
        l <= newlines(s),
    ensures
        0 <= line_start(s, l) <= s.len(),
        newlines(s.take(line_start(s, l))) == l,
        l > 0 ==> line_start(s, l) >= 1 && s[line_start(s, l) - 1] == '\n',
    decreases s.len(),
{
    if l == 0 || s.len() == 0 {
        assert(s.take(0) =~= Seq::<char>::empty());
    } else {
        let d = s.drop_last();
        if newlines(d) >= l {
            lemma_line_start(d, l);
            assert(s.take(line_start(d, l)) =~= d.take(line_start(d, l)));
        } else {
            assert(s.take(s.len() as int) =~= s);
        }
    }
}

/// Line `l` starts at the first index whose prefix holds `l` line feeds.
pub proof fn lemma_line_start_first(s: Seq<char>, l: nat, j: int)
    requires
        l <= newlines(s),
        0 <= j <= s.len(),
        newlines(s.take(j)) >= l,
    ensures
        line_start(s, l) <= j,
    decreases s.len(),
{
    if l == 0 || s.len() == 0 {
    } else {
        let d = s.drop_last();
        if newlines(d) >= l {
            lemma_line_start(d, l);
            if j <= d.len() {
                assert(s.take(j) =~= d.take(j));
                lemma_line_start_first(d, l, j);
            }
        } else if j < s.len() {
            assert(s.take(j) =~= d.take(j));
            lemma_newlines_take_mono(d, j, d.len() as int);
        }
    }
}

/// Lines follow one another: a line that is not the last ends with a line
/// feed at or after its own start.
pub proof fn lemma_line_order(s: Seq<char>, l: nat)
    requires
        l + 1 < line_count(s),
    ensures
        0 <= line_start(s, l) <= line_start(s, l + 1) - 1,
        line_start(s, l + 1) <= s.len(),
        s[line_start(s, l + 1) - 1] == '\n',
{
    lemma_line_start(s, l);
    lemma_line_start(s, l + 1);
    let e = line_start(s, l + 1) - 1;
    lemma_newlines_take_step(s, e);
    lemma_line_start_first(s, l, e);
}

/// Every line lies within the text, and its length is not negative.
pub proof fn lemma_line_bounds(s: Seq<char>, l: nat)
    requires
        l < line_count(s),
    ensures
        0 <= line_start(s, l) <= line_end(s, l) <= s.len(),
{
    lemma_line_start(s, l);
    if l + 1 < line_count(s) {
        lemma_line_order(s, l);
    }
}

/// Char index `i` lies on line `line_of(s, i)`: at or after its start and
/// no further than its end.
pub proof fn lemma_line_of(s: Seq<char>, i: int)
    requires
        0 <= i <= s.len(),
    ensures
        line_of(s, i) < line_count(s),
        line_start(s, line_of(s, i)) <= i <= line_end(s, line_of(s, i)),
{
    let l = line_of(s, i);
    lemma_newlines_take_mono(s, i, s.len() as int);
    lemma_line_start_first(s, l, i);
    if l + 1 < line_count(s) {
        lemma_line_start(s, l + 1);
        if line_start(s, l + 1) < i {
            lemma_newlines_take_mono(s, line_start(s, l + 1), i);
        }
    }
}

} // verus!

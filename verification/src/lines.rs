//! Counting the lines of a text buffer.

use crate::text::char_count_bound;
use vstd::prelude::*;

verus! {

/// The line terminator: a line feed. A carriage return before it belongs to
/// the same terminator and is not counted separately.
pub open spec fn is_terminator(c: char) -> bool {
    c == '\n'
}

/// Number of line terminators in `t`.
pub open spec fn terminator_count(t: Seq<char>) -> nat
    decreases t.len(),
{
    if t.len() == 0 {
        0
    } else {
        terminator_count(t.drop_last()) + if is_terminator(t.last()) {
            1nat
        } else {
            0nat
        }
    }
}

/// Number of lines in `t`: every terminator closes one line, and text after
/// the last terminator forms one more.
pub open spec fn line_count(t: Seq<char>) -> nat {
    if t.len() > 0 && !is_terminator(t.last()) {
        terminator_count(t) + 1
    } else {
        terminator_count(t)
    }
}

/// A text holds at most as many terminators as characters, and fewer when it
/// does not end in one.
pub proof fn lemma_terminator_count_bound(t: Seq<char>)
    ensures
        terminator_count(t) <= t.len(),
        t.len() > 0 && !is_terminator(t.last()) ==> terminator_count(t) < t.len(),
    decreases t.len(),
{
    if t.len() > 0 {
        lemma_terminator_count_bound(t.drop_last());
    }
}

/// A text has no lines exactly when it is empty. One that ends in a
/// terminator has as many lines as terminators, and any other has one more.
pub proof fn lemma_line_count(t: Seq<char>)
    ensures
        line_count(t) == 0 <==> t.len() == 0,
        t.len() > 0 && is_terminator(t.last()) ==> line_count(t) == terminator_count(t),
        t.len() > 0 && !is_terminator(t.last()) ==> line_count(t) == terminator_count(t) + 1,
{
}

/// Counts the lines of `text`.
pub fn count_lines(text: &str) -> (n: usize)
    ensures
        n == line_count(text@),
        n == 0 <==> text@.len() == 0,
{
    let bound = char_count_bound(text);
    let mut n: usize = 0;
    let mut open_line = false;
    for c in it: text.chars()
        invariant
            it.seq() == text@,
            text@.len() <= bound,
            n == terminator_count(text@.take(it.index())),
            open_line == (it.index() > 0 && !is_terminator(text@[it.index() - 1])),
    {
        proof {
            let i = it.index();
            assert(text@.take(i + 1).drop_last() == text@.take(i));
            lemma_terminator_count_bound(text@.take(i));
        }
        if c == '\n' {
            n = n + 1;
            open_line = false;
        } else {
            open_line = true;
        }
    }
    proof {
        assert(text@.take(text@.len() as int) == text@);
        lemma_terminator_count_bound(text@);
    }
    if open_line {
        n + 1
    } else {
        n
    }
}

} // verus!

//! The file-name component of a path.
//!
//! Paths are text with `/` as the separator. A path falls into segments at
//! its separators; a segment that is empty or `.` names nothing and is passed
//! over, and `..` names the parent directory rather than a file.

use crate::text::char_count_bound;
use vstd::prelude::*;

verus! {

/// The separator between the segments of a path.
pub open spec fn is_separator(c: char) -> bool {
    c == '/'
}

/// What follows the last separator of `p`; all of `p` where it has none.
pub open spec fn last_segment(p: Seq<char>) -> Seq<char>
    decreases p.len(),
{
    if p.len() == 0 || is_separator(p.last()) {
        Seq::empty()
    } else {
        last_segment(p.drop_last()).push(p.last())
    }
}

/// An empty segment and the segment `.` name nothing.
pub open spec fn names_nothing(segment: Seq<char>) -> bool {
    segment.len() == 0 || segment =~= seq!['.']
}

/// The segment `..`.
pub open spec fn names_parent(segment: Seq<char>) -> bool {
    segment =~= seq!['.', '.']
}

/// The last segment of `p`, unless it names nothing and a separator stands
/// before it: then the final segment of what stands before that separator.
pub open spec fn final_segment(p: Seq<char>) -> Seq<char>
    decreases p.len(),
{
    let segment = last_segment(p);
    if names_nothing(segment) && segment.len() < p.len() {
        final_segment(p.take(p.len() - segment.len() - 1))
    } else {
        segment
    }
}

/// The file-name component of `p`: its final segment, where that names a
/// file or a directory. A path such as `/`, `.` or `a/..` has none.
pub open spec fn final_component(p: Seq<char>) -> Option<Seq<char>> {
    let segment = final_segment(p);
    if names_nothing(segment) || names_parent(segment) {
        None
    } else {
        Some(segment)
    }
}

/// How the final segment changes as one character is appended to a path: a
/// separator, or a `.` that begins a segment, leaves it as it was; any other
/// character makes the last segment the final one.
proof fn lemma_final_segment_push(p: Seq<char>, c: char)
    ensures
        last_segment(p.push(c)) == if is_separator(c) {
            Seq::empty()
        } else {
            last_segment(p).push(c)
        },
        final_segment(p.push(c)) == if is_separator(c) {
            final_segment(p)
        } else if c == '.' && last_segment(p).len() == 0 && p.len() > 0 {
            final_segment(p)
        } else {
            last_segment(p).push(c)
        },
{
    let next = p.push(c);
    assert(next.drop_last() == p);
    if is_separator(c) {
        assert(next.take(next.len() - 1) == p);
    } else if c == '.' && last_segment(p).len() == 0 {
        assert(last_segment(next) == seq!['.']);
        if p.len() > 0 {
            assert(next.take(next.len() - 2) == p.take(p.len() - 1));
        }
    } else {
        let segment = last_segment(next);
        if segment.len() == 1 {
            assert(segment[0] == c);
        }
    }
}

/// The last segment of a path that ends in a separator-free `name`, behind a
/// separator or on its own, is `name`.
proof fn lemma_last_segment_of_name(dir: Seq<char>, name: Seq<char>)
    requires
        forall|k: int| 0 <= k < name.len() ==> !is_separator(#[trigger] name[k]),
    ensures
        last_segment(name) == name,
        last_segment(dir.push('/') + name) == name,
    decreases name.len(),
{
    let path = dir.push('/') + name;
    if name.len() == 0 {
        assert(path == dir.push('/'));
    } else {
        let shorter = name.drop_last();
        lemma_last_segment_of_name(dir, shorter);
        assert(path.drop_last() == dir.push('/') + shorter);
        assert(shorter.push(name.last()) == name);
    }
}

/// A name that holds no separator and is neither empty, `.` nor `..` is the
/// file-name component of itself, and of every path that ends in a separator
/// and that name.
pub proof fn lemma_final_component_of_name(dir: Seq<char>, name: Seq<char>)
    requires
        forall|k: int| 0 <= k < name.len() ==> !is_separator(#[trigger] name[k]),
        !names_nothing(name),
        !names_parent(name),
    ensures
        final_component(name) == Some(name),
        final_component(dir.push('/') + name) == Some(name),
{
    lemma_last_segment_of_name(dir, name);
}

/// A separator at the end of a path, and a `.` segment behind it, do not
/// change the file-name component.
pub proof fn lemma_final_component_ignores_trailing(p: Seq<char>)
    ensures
        final_component(p.push('/')) == final_component(p),
        final_component(p.push('/').push('.')) == final_component(p),
{
    lemma_final_segment_push(p, '/');
    lemma_final_segment_push(p.push('/'), '.');
}

/// The file-name component of `path`, borrowed from it.
pub fn file_name(path: &str) -> (name: Option<&str>)
    ensures
        match name {
            Some(n) => final_component(path@) == Some(n@),
            None => final_component(path@) is None,
        },
{
    let bound = char_count_bound(path);
    // [start, end) is the final segment of what was read, empty while that
    // names nothing; the segment being read begins at `segment_start`.
    let mut start: usize = 0;
    let mut end: usize = 0;
    let mut parent = false;
    let mut segment_start: usize = 0;
    let mut lone_dot = false;
    let mut i: usize = 0;
    for c in it: path.chars()
        invariant
            it.seq() == path@,
            path@.len() <= bound,
            i == it.index(),
            segment_start <= i,
            last_segment(path@.take(i as int)) == path@.subrange(segment_start as int, i as int),
            lone_dot == (last_segment(path@.take(i as int)) == seq!['.']),
            start <= end <= i,
            names_nothing(final_segment(path@.take(i as int))) ==> start == end,
            !names_nothing(final_segment(path@.take(i as int))) ==> {
                &&& final_segment(path@.take(i as int)) == path@.subrange(start as int, end as int)
                &&& parent == names_parent(final_segment(path@.take(i as int)))
            },
    {
        proof {
            let read = path@.take(i as int);
            lemma_final_segment_push(read, c);
            assert(path@.take(i + 1) == read.push(c));
            let segment = last_segment(read).push(c);
            assert(segment == path@.subrange(segment_start as int, i + 1));
            assert(segment.len() == i + 1 - segment_start && segment.last() == c);
            if names_parent(segment) {
                assert(last_segment(read) == seq!['.']);
            }
            if lone_dot && c == '.' {
                assert(segment == seq!['.', '.']);
            }
        }
        if c == '/' {
            segment_start = i + 1;
            lone_dot = false;
        } else if c == '.' && i == segment_start {
            lone_dot = true;
        } else {
            start = segment_start;
            end = i + 1;
            parent = lone_dot && c == '.';
            lone_dot = false;
        }
        i = i + 1;
    }
    assert(path@.take(i as int) == path@);
    if start < end && !parent {
        Some(path.substring_char(start, end))
    } else {
        None
    }
}

} // verus!

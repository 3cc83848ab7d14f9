//! The grammar of slash-separated paths: segments, the file name and the parent directory.
//!
//! A path is a sequence of segments separated by `/`. Empty segments and `.` segments that
//! follow a separator carry no meaning and are skipped when a path is read from its end,
//! so `a/b/`, `a//b` and `a/b/.` all end in the component `b`.
//!
//! The file name and the parent directory are those that `std::path::Path` gives where `/`
//! is the only separator. They are worked out here on the characters of the path, so that
//! they are the same on every system.

use vstd::prelude::*;
use vstd::string::*;
use crate::text::{chars_of, opt_text};

verus! {

/// Where the segment that ends at `end` starts: just after the nearest separator before
/// `end`, or at 0 when there is none.
pub open spec fn segment_start(p: Seq<char>, end: int) -> int
    decreases end,
{
    if end <= 0 {
        0
    } else if p[end - 1] == '/' {
        end
    } else {
        segment_start(p, end - 1)
    }
}

/// Whether `p[start..end]` is the segment `.`.
pub open spec fn is_dot(p: Seq<char>, start: int, end: int) -> bool {
    end - start == 1 && p[start] == '.'
}

/// Whether `p[start..end]` is the segment `..`.
pub open spec fn is_dot_dot(p: Seq<char>, start: int, end: int) -> bool {
    end - start == 2 && p[start] == '.' && p[start + 1] == '.'
}

/// The bounds of the last component of `p[0..end]`: its last segment that is neither empty
/// nor a `.` after a separator. There is none when the path is empty or only a root.
pub open spec fn last_component(p: Seq<char>, end: int) -> Option<(int, int)>
    decreases end,
{
    if end <= 0 {
        None
    } else {
        let start = segment_start(p, end);
        if 0 < start <= end && (start == end || is_dot(p, start, end)) {
            last_component(p, start - 1)
        } else if start == end {
            None
        } else {
            Some((start, end))
        }
    }
}

/// The length of the directory `p[0..end]` once trailing separators and `.` segments are
/// dropped. A root keeps its single separator.
pub open spec fn dir_end(p: Seq<char>, end: int) -> int
    decreases end,
{
    if end <= 0 {
        0
    } else if p[end - 1] == '/' {
        if end == 1 {
            1
        } else {
            dir_end(p, end - 1)
        }
    } else {
        let start = segment_start(p, end);
        if 0 < start < end && is_dot(p, start, end) {
            dir_end(p, start)
        } else {
            end
        }
    }
}

/// The file name of a path: its last component, unless that is `.` or `..`.
pub open spec fn file_name_of(p: Seq<char>) -> Option<Seq<char>> {
    match last_component(p, p.len() as int) {
        Some((start, end)) => if is_dot(p, start, end) || is_dot_dot(p, start, end) {
            None
        } else {
            Some(p.subrange(start, end))
        },
        None => None,
    }
}

/// The parent directory of a path: what stands before its last component.
pub open spec fn parent_of(p: Seq<char>) -> Option<Seq<char>> {
    match last_component(p, p.len() as int) {
        Some((start, end)) => Some(p.subrange(0, dir_end(p, start))),
        None => None,
    }
}

/// A segment starts within its path, holds no separator, and follows one unless it starts
/// the path.
pub proof fn lemma_segment_start(p: Seq<char>, end: int)
    requires
        0 <= end <= p.len(),
    ensures
        0 <= segment_start(p, end) <= end,
        forall|k: int| segment_start(p, end) <= k < end ==> p[k] != '/',
        segment_start(p, end) > 0 ==> p[segment_start(p, end) - 1] == '/',
    decreases end,
{
    if end > 0 && p[end - 1] != '/' {
        lemma_segment_start(p, end - 1);
    }
}

/// The last component is a non-empty segment within the path.
pub proof fn lemma_last_component(p: Seq<char>, end: int)
    requires
        0 <= end <= p.len(),
    ensures
        last_component(p, end) matches Some((s, e)) ==> {
            &&& 0 <= s < e <= end
            &&& s == segment_start(p, e)
            &&& forall|k: int| s <= k < e ==> p[k] != '/'
            &&& s > 0 ==> p[s - 1] == '/' && !is_dot(p, s, e)
        },
    decreases end,
{
    if end > 0 {
        let start = segment_start(p, end);
        lemma_segment_start(p, end);
        if 0 < start && (start == end || is_dot(p, start, end)) {
            lemma_last_component(p, start - 1);
        }
    }
}

/// The trimmed directory is a prefix of what was given.
pub proof fn lemma_dir_end(p: Seq<char>, end: int)
    requires
        0 <= end <= p.len(),
    ensures
        0 <= dir_end(p, end) <= end,
        end > 0 ==> dir_end(p, end) > 0,
    decreases end,
{
    if end > 0 {
        if p[end - 1] == '/' {
            if end > 1 {
                lemma_dir_end(p, end - 1);
            }
        } else {
            let start = segment_start(p, end);
            lemma_segment_start(p, end);
            if 0 < start < end && is_dot(p, start, end) {
                lemma_dir_end(p, start);
            }
        }
    }
}

/// The parent directory of a path is a proper prefix of it.
pub proof fn lemma_parent_is_prefix(p: Seq<char>)
    ensures
        parent_of(p) matches Some(dir) ==> dir.len() < p.len() && dir == p.subrange(
            0,
            dir.len() as int,
        ),
{
    lemma_last_component(p, p.len() as int);
    if let Some((start, end)) = last_component(p, p.len() as int) {
        lemma_dir_end(p, start);
    }
}

/// Whether a name can stand as the last component of a path: it is not empty, holds no
/// separator, and is neither `.` nor `..`.
pub open spec fn is_plain_name(name: Seq<char>) -> bool {
    &&& name.len() > 0
    &&& forall|k: int| 0 <= k < name.len() ==> name[k] != '/'
    &&& !is_dot(name, 0, name.len() as int)
    &&& !is_dot_dot(name, 0, name.len() as int)
}

/// A stretch without a separator that follows one, or starts the path, is a segment.
pub proof fn lemma_segment_found(p: Seq<char>, start: int, end: int)
    requires
        0 <= start <= end <= p.len(),
        forall|k: int| start <= k < end ==> p[k] != '/',
        start > 0 ==> p[start - 1] == '/',
    ensures
        segment_start(p, end) == start,
    decreases end - start,
{
    if start < end {
        lemma_segment_found(p, start, end - 1);
    }
}

/// The file name of a path is a plain name.
pub proof fn lemma_file_name_is_plain(p: Seq<char>)
    ensures
        file_name_of(p) matches Some(name) ==> is_plain_name(name),
{
    lemma_last_component(p, p.len() as int);
}

/// A plain name behind a directory and a separator is the file name of the path, and the
/// directory, if it ends in a segment of two characters or more, is its parent.
pub proof fn lemma_path_of_dir_and_name(dir: Seq<char>, name: Seq<char>)
    requires
        is_plain_name(name),
    ensures
        file_name_of(dir + seq!['/'] + name) == Some(name),
        dir.len() >= 2 && dir[dir.len() - 1] != '/' && dir[dir.len() - 2] != '/' ==> parent_of(
            dir + seq!['/'] + name,
        ) == Some(dir),
{
    let p = dir + seq!['/'] + name;
    let start: int = dir.len() as int + 1;
    let end = p.len() as int;
    lemma_segment_found(p, start, end);
    if dir.len() >= 2 && dir[dir.len() - 1] != '/' && dir[dir.len() - 2] != '/' {
        let d = dir.len() as int;
        lemma_segment_start(p, d);
        assert(segment_start(p, d) <= d - 2) by {
            reveal_with_fuel(segment_start, 3);
        }
        assert(dir_end(p, d) == d);
    }
}

/// Finds where the segment that ends at `end` starts.
fn find_segment_start(chars: &Vec<char>, end: usize) -> (start: usize)
    requires
        end <= chars.len(),
    ensures
        start == segment_start(chars@, end as int),
        start <= end,
{
    let mut start = end;
    while start > 0 && chars[start - 1] != '/'
        invariant
            start <= end <= chars.len(),
            segment_start(chars@, end as int) == segment_start(chars@, start as int),
        decreases start,
    {
        start = start - 1;
    }
    start
}

/// Finds the last component of a path.
fn find_last_component(chars: &Vec<char>) -> (bounds: Option<(usize, usize)>)
    ensures
        match bounds {
            Some((start, end)) => {
                &&& last_component(chars@, chars.len() as int) == Some((start as int, end as int))
                &&& start < end <= chars.len()
            },
            None => last_component(chars@, chars.len() as int) is None,
        },
{
    let mut end = chars.len();
    while end > 0
        invariant
            end <= chars.len(),
            last_component(chars@, chars.len() as int) == last_component(chars@, end as int),
        decreases end,
    {
        let start = find_segment_start(chars, end);
        if start > 0 && (start == end || (end - start == 1 && chars[start] == '.')) {
            end = start - 1;
        } else if start == end {
            return None;
        } else {
            return Some((start, end));
        }
    }
    None
}

/// Finds where the directory `chars[0..end]` ends once it is trimmed.
fn find_dir_end(chars: &Vec<char>, end: usize) -> (trimmed: usize)
    requires
        end <= chars.len(),
    ensures
        trimmed == dir_end(chars@, end as int),
        trimmed <= end,
{
    let mut trimmed = end;
    while trimmed > 0
        invariant
            trimmed <= end <= chars.len(),
            dir_end(chars@, end as int) == dir_end(chars@, trimmed as int),
        decreases trimmed,
    {
        if chars[trimmed - 1] == '/' {
            if trimmed == 1 {
                return 1;
            }
            trimmed = trimmed - 1;
        } else {
            let start = find_segment_start(chars, trimmed);
            if start > 0 && start < trimmed && trimmed - start == 1 && chars[start] == '.' {
                trimmed = start;
            } else {
                return trimmed;
            }
        }
    }
    trimmed
}

/// The file name of `path`, or `None` when the path ends in a root, in `.` or in `..`.
pub fn file_name(path: &str) -> (name: Option<String>)
    ensures
        opt_text(name) == file_name_of(path@),
{
    let chars = chars_of(path);
    match find_last_component(&chars) {
        Some((start, end)) => {
            let dot = end - start == 1 && chars[start] == '.';
            let dot_dot = end - start == 2 && chars[start] == '.' && chars[start + 1] == '.';
            if dot || dot_dot {
                None
            } else {
                Some(String::from_str(path.substring_char(start, end)))
            }
        },
        None => None,
    }
}

/// The parent directory of `path`, or `None` when the path is empty or only a root.
pub fn parent(path: &str) -> (dir: Option<String>)
    ensures
        opt_text(dir) == parent_of(path@),
{
    let chars = chars_of(path);
    match find_last_component(&chars) {
        Some((start, _)) => {
            let trimmed = find_dir_end(&chars, start);
            Some(String::from_str(path.substring_char(0, trimmed)))
        },
        None => None,
    }
}

} // verus!

//! File name and extension of a destination path.
//!
//! A path is read as text in which `/` separates components. Trailing
//! separators and `.` components do not count, and a final `..` names no file.

use vstd::prelude::*;
use crate::text::chars_of;

verus! {

/// The index of the last `c` in `s`, or -1 where `s` holds none.
pub open spec fn last_index_of(s: Seq<char>, c: char) -> int
    decreases s.len(),
{
    if s.len() == 0 {
        -1
    } else if s.last() == c {
        s.len() - 1
    } else {
        last_index_of(s.drop_last(), c)
    }
}

/// `last_index_of` holds `c` unless it is -1, and no `c` comes behind it.
pub proof fn lemma_last_index_of(s: Seq<char>, c: char)
    ensures
        -1 <= last_index_of(s, c) < s.len(),
        last_index_of(s, c) >= 0 ==> s[last_index_of(s, c)] == c,
        forall|j: int| last_index_of(s, c) < j < s.len() ==> s[j] != c,
    decreases s.len(),
{
    if s.len() > 0 && s.last() != c {
        let init = s.drop_last();
        lemma_last_index_of(init, c);
        assert forall|j: int| last_index_of(s, c) < j < s.len() implies s[j] != c by {
            if j < init.len() {
                assert(init[j] == s[j]);
            }
        }
    }
}

/// An index that holds `c`, with no `c` behind it, is `last_index_of`; so is -1
/// where `s` holds no `c`.
pub proof fn lemma_last_index_of_unique(s: Seq<char>, c: char, i: int)
    requires
        -1 <= i < s.len(),
        i >= 0 ==> s[i] == c,
        forall|j: int| i < j < s.len() ==> s[j] != c,
    ensures
        last_index_of(s, c) == i,
{
    lemma_last_index_of(s, c);
}

/// Whether the path ends in a separator or in a `.` component behind one.
pub open spec fn has_idle_tail(path: Seq<char>) -> bool {
    let n = path.len() as int;
    n > 0 && (path[n - 1] == '/' || (n >= 2 && path[n - 1] == '.' && path[n - 2] == '/'))
}

/// The path without its trailing separators and `.` components.
pub open spec fn trimmed(path: Seq<char>) -> Seq<char>
    decreases path.len(),
{
    if has_idle_tail(path) {
        trimmed(path.drop_last())
    } else {
        path
    }
}

/// The final component of the path, where it names a file: none for an empty
/// path, for one made of separators and `.` only, and for one that ends in `..`.
pub open spec fn file_name(path: Seq<char>) -> Option<Seq<char>> {
    let t = trimmed(path);
    let name = t.subrange(last_index_of(t, '/') + 1, t.len() as int);
    if name.len() == 0 || name == seq!['.'] || name == seq!['.', '.'] {
        None
    } else {
        Some(name)
    }
}

/// What follows the last dot of a file name. A name without a dot has no
/// extension, nor has one whose only dot comes first.
pub open spec fn extension_of_name(name: Seq<char>) -> Option<Seq<char>> {
    let dot = last_index_of(name, '.');
    if dot <= 0 {
        None
    } else {
        Some(name.subrange(dot + 1, name.len() as int))
    }
}

/// The extension of the file that the path names, without the dot.
pub open spec fn extension(path: Seq<char>) -> Option<Seq<char>> {
    match file_name(path) {
        Some(name) => extension_of_name(name),
        None => None,
    }
}

/// The index of the last `c` in `chars[from..to]`, counted from the start of `chars`.
fn rfind_between(chars: &Vec<char>, from: usize, to: usize, c: char) -> (found: Option<usize>)
    requires
        from <= to <= chars.len(),
    ensures
        match found {
            Some(i) => from <= i < to && last_index_of(chars@.subrange(from as int, to as int), c)
                == i - from,
            None => last_index_of(chars@.subrange(from as int, to as int), c) == -1,
        },
{
    let ghost part = chars@.subrange(from as int, to as int);
    let mut i: usize = to;
    while i > from
        invariant
            from <= i <= to <= chars.len(),
            part == chars@.subrange(from as int, to as int),
            forall|j: int| i - from <= j < part.len() ==> part[j] != c,
        decreases i,
    {
        i -= 1;
        if chars[i] == c {
            proof {
                lemma_last_index_of_unique(part, c, i - from);
            }
            return Some(i);
        }
    }
    proof {
        lemma_last_index_of_unique(part, c, -1);
    }
    None
}

/// The span of `chars` that `file_name` selects.
fn name_span(chars: &Vec<char>) -> (span: Option<(usize, usize)>)
    ensures
        match span {
            Some((from, to)) => from <= to <= chars.len() && file_name(chars@) == Some(
                chars@.subrange(from as int, to as int),
            ),
            None => file_name(chars@) is None,
        },
{
    let mut end: usize = chars.len();
    assert(chars@.take(end as int) == chars@);
    while end > 0 && (chars[end - 1] == '/' || (end >= 2 && chars[end - 1] == '.' && chars[end
        - 2] == '/'))
        invariant
            end <= chars.len(),
            trimmed(chars@) == trimmed(chars@.take(end as int)),
        decreases end,
    {
        assert(chars@.take(end as int).drop_last() == chars@.take(end - 1));
        end -= 1;
    }
    let ghost t = chars@.take(end as int);
    let start: usize = match rfind_between(chars, 0, end, '/') {
        Some(i) => i + 1,
        None => 0,
    };
    assert(t.subrange(start as int, end as int) == chars@.subrange(start as int, end as int));
    let len: usize = end - start;
    if len == 0 || (len == 1 && chars[start] == '.') || (len == 2 && chars[start] == '.'
        && chars[start + 1] == '.') {
        proof {
            let name = chars@.subrange(start as int, end as int);
            if len == 1 {
                assert(name == seq!['.']);
            }
            if len == 2 {
                assert(name == seq!['.', '.']);
            }
        }
        None
    } else {
        proof {
            let name = chars@.subrange(start as int, end as int);
            if name == seq!['.'] {
                assert(name[0] == '.');
            }
            if name == seq!['.', '.'] {
                assert(name[0] == '.' && name[1] == '.');
            }
        }
        Some((start, end))
    }
}

/// The extension of the file that `path` names, without the dot.
pub fn extension_of(path: &str) -> (ext: Option<&str>)
    ensures
        match ext {
            Some(e) => extension(path@) == Some(e@),
            None => extension(path@) is None,
        },
{
    let chars = chars_of(path);
    match name_span(&chars) {
        None => None,
        Some((from, to)) => {
            match rfind_between(&chars, from, to, '.') {
                None => None,
                Some(dot) => {
                    if dot == from {
                        None
                    } else {
                        let ghost name = chars@.subrange(from as int, to as int);
                        assert(name.subrange(dot - from + 1, name.len() as int) == path@.subrange(
                            dot + 1,
                            to as int,
                        ));
                        Some(path.substring_char(dot + 1, to))
                    }
                },
            }
        },
    }
}

} // verus!

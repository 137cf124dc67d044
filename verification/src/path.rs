//! Paths: how one is adjoined to another, and the name at the end of one.
//!
//! A path is text here. Operating systems read paths in two ways: by slashes alone, or, on
//! Windows, by slashes and backslashes, with drives and other prefixes before them. The
//! contracts say what comes of each reading.

use vstd::prelude::*;

use camino::Utf8Path;

verus! {

/// `c` separates names: a slash, and on Windows a backslash too.
pub open spec fn is_separator(c: char, windows: bool) -> bool {
    c == '/' || windows && c == '\\'
}

/// `path` begins with a drive of Windows.
pub open spec fn has_drive(path: Seq<char>) -> bool {
    path.len() > 1 && path[1] == ':' && ('a' <= path[0] <= 'z' || 'A' <= path[0] <= 'Z')
}

/// `path` begins with a separator.
pub open spec fn is_rooted(path: Seq<char>) -> bool {
    path.len() > 0 && is_separator(path[0], true)
}

/// `path` begins with two separators, as the paths of Windows do that name a share or a device
/// before their root.
pub open spec fn is_twice_rooted(path: Seq<char>) -> bool {
    path.len() > 1 && is_separator(path[0], true) && is_separator(path[1], true)
}

/// `path` begins as the verbatim paths of Windows do, in which only backslashes separate.
pub open spec fn is_verbatim(path: Seq<char>) -> bool {
    is_twice_rooted(path) && path.len() > 3 && path[2] == '?' && is_separator(path[3], true)
}

/// Where the name in `path` that begins at `from` ends on Windows.
pub open spec fn name_end(path: Seq<char>, from: int) -> int
    decreases path.len() - from,
{
    if from >= path.len() || is_separator(path[from], true) {
        from
    } else {
        name_end(path, from + 1)
    }
}

/// Where the second of two names in `path` ends, of which the first begins at `from`, if there
/// are two.
pub open spec fn second_name_end(path: Seq<char>, from: int) -> Option<int> {
    let first = name_end(path, from);
    let second = name_end(path, first + 1);
    if from < first && first + 1 < second {
        Some(second)
    } else {
        None
    }
}

/// Where the prefix of `path` ends on Windows: a drive as in `C:`, a share as in
/// `\\server\share`, a device as in `\\.\name`, or one of the verbatim prefixes `\\?\name`,
/// `\\?\C:` and `\\?\UNC\server\share`. Nothing is said of other paths that begin with two
/// separators.
pub open spec fn prefix_end(path: Seq<char>) -> Option<int> {
    if has_drive(path) {
        Some(2)
    } else if !is_twice_rooted(path) {
        Some(0)
    } else if !is_verbatim(path) {
        second_name_end(path, 2)
    } else if path.contains('/') {
        None
    } else if path.subrange(4, name_end(path, 4)) == seq!['U', 'N', 'C'] {
        second_name_end(path, 8)
    } else {
        second_name_end(path, 2)
    }
}

/// `path` seen from `base`, where slashes alone separate: an absolute path stays as it is, and a
/// relative one follows the base, with a slash between them unless the base is empty or ends in
/// one.
pub open spec fn join_on_unix(base: Seq<char>, path: Seq<char>) -> Seq<char> {
    if path.len() > 0 && path[0] == '/' {
        path
    } else if base.len() == 0 || base.last() == '/' {
        base + path
    } else {
        base + seq!['/'] + path
    }
}

/// `path` seen from `base` on Windows: a path with a prefix stays as it is, one with only a root
/// keeps the prefix of the base, and a relative one follows the base, with a backslash between
/// them unless the base is empty, ends in a separator or is a drive.
pub open spec fn join_on_windows(base: Seq<char>, path: Seq<char>) -> Seq<char> {
    if prefix_end(path) != Some(0int) {
        path
    } else if is_rooted(path) {
        base.take(prefix_end(base)->0) + path
    } else if base.len() == 0 || is_separator(base.last(), true) || (has_drive(base) && base.len()
        == 2) {
        base + path
    } else {
        base + seq!['\\'] + path
    }
}

/// [`join_on_windows`] gives `path` seen from `base` to the letter: the prefixes that it asks for
/// are known, and nothing is adjoined to a verbatim base.
pub open spec fn is_plain_on_windows(base: Seq<char>, path: Seq<char>) -> bool {
    &&& prefix_end(path) is Some
    &&& prefix_end(path) == Some(0int) ==> {
        &&& !is_verbatim(base)
        &&& is_rooted(path) ==> prefix_end(base) is Some
    }
}

/// `path` has nothing in it that could be left out: no two separators in a row, no name `.`, and
/// none that begins with `..`.
pub open spec fn is_tidy(path: Seq<char>) -> bool {
    &&& forall|i: int|
        0 < i < path.len() && is_separator(#[trigger] path[i], true) ==> !is_separator(
            path[i - 1],
            true,
        )
    &&& forall|i: int|
        0 <= i < path.len() && #[trigger] path[i] == '.' && (i == 0 || is_separator(
            path[i - 1],
            true,
        )) ==> i + 1 < path.len() && path[i + 1] != '.' && !is_separator(path[i + 1], true)
}

/// A relative path is adjoined to a verbatim base, and both are tidy.
pub open spec fn is_tidy_on_verbatim(base: Seq<char>, path: Seq<char>) -> bool {
    &&& is_verbatim(base)
    &&& prefix_end(base) is Some
    &&& is_tidy(base.skip(2))
    &&& prefix_end(path) == Some(0int)
    &&& !is_rooted(path)
    &&& is_tidy(path)
    &&& path.len() > 0 ==> !is_separator(path.last(), true)
}

/// `path` with backslashes for all its separators.
pub open spec fn backslashed(path: Seq<char>) -> Seq<char> {
    Seq::new(
        path.len(),
        |i: int|
            if path[i] == '/' {
                '\\'
            } else {
                path[i]
            },
    )
}

/// `joined` is `path` seen from `base`, in one of the two readings. A verbatim base may turn the
/// separators of what is adjoined to it.
pub open spec fn is_join(base: Seq<char>, path: Seq<char>, joined: Seq<char>) -> bool {
    ||| joined == join_on_unix(base, path)
    ||| {
        &&& is_plain_on_windows(base, path) ==> joined == join_on_windows(base, path)
        &&& is_tidy_on_verbatim(base, path) ==> backslashed(joined) == backslashed(
            join_on_windows(base, path),
        )
    }
}

/// `path` without what adds nothing at its end: separators, and `.` after a separator.
pub open spec fn without_trail(path: Seq<char>, windows: bool) -> Seq<char>
    decreases path.len(),
{
    if path.len() > 0 && is_separator(path.last(), windows) {
        without_trail(path.drop_last(), windows)
    } else if path.len() > 1 && path.last() == '.' && is_separator(path[path.len() - 2], windows) {
        without_trail(path.take(path.len() - 2), windows)
    } else {
        path
    }
}

/// What follows the last separator of `path`.
pub open spec fn after_separator(path: Seq<char>, windows: bool) -> Seq<char>
    decreases path.len(),
{
    if path.len() == 0 || is_separator(path.last(), windows) {
        Seq::empty()
    } else {
        after_separator(path.drop_last(), windows).push(path.last())
    }
}

/// The name at the end of `path`.
pub open spec fn final_name(path: Seq<char>, windows: bool) -> Seq<char> {
    after_separator(without_trail(path, windows), windows)
}

/// The position of the last dot of `name`, or -1.
pub open spec fn last_dot(name: Seq<char>) -> int
    decreases name.len(),
{
    if name.len() == 0 {
        -1
    } else if name.last() == '.' {
        name.len() - 1
    } else {
        last_dot(name.drop_last())
    }
}

/// `name` without its extension. A dot at the start of a name begins no extension.
pub open spec fn stem(name: Seq<char>) -> Seq<char> {
    if last_dot(name) > 0 {
        name.take(last_dot(name))
    } else {
        name
    }
}

/// The stem of the name at the end of `path`. A root, an empty path, `.`, and a path that ends in
/// `..` have no such name.
pub open spec fn file_stem_of(path: Seq<char>, windows: bool) -> Option<Seq<char>> {
    let name = final_name(path, windows);
    if name.len() == 0 || name == seq!['.'] || name == seq!['.', '.'] {
        None
    } else {
        Some(stem(name))
    }
}

/// `part` stands somewhere in `path`, and is not empty.
pub open spec fn is_part_of(path: Seq<char>, part: Seq<char>) -> bool {
    exists|from: int, to: int|
        0 <= from < to <= path.len() && part == #[trigger] path.subrange(from, to)
}

/// What Windows takes for the names in `path` is known: what follows its prefix. In a verbatim
/// path, nothing at the end of that may be left out.
pub open spec fn has_known_names(path: Seq<char>) -> bool {
    &&& prefix_end(path) is Some
    &&& is_verbatim(path) ==> {
        let names = path.skip(prefix_end(path)->0);
        without_trail(names, true) == names
    }
}

/// `found` is the stem of the name at the end of `path`, in one of the two readings. On Windows a
/// prefix is not such a name; where it is not known how far the prefix goes, what is found is only
/// said to be a part of the path.
pub open spec fn is_file_stem(path: Seq<char>, found: Option<Seq<char>>) -> bool {
    ||| found == file_stem_of(path, false)
    ||| if has_known_names(path) {
        found == file_stem_of(path.skip(prefix_end(path)->0), true)
    } else {
        found matches Some(part) ==> is_part_of(path, part)
    }
}

/// `Utf8Path::join` of `camino`: the path seen from the base, as the operating system reads them.
/// Left unsaid is what Windows makes of paths that begin with two separators but not with a
/// prefix that it knows, and of a verbatim base and what is adjoined to it where one of them is
/// not tidy or the latter has a root.
#[verifier::external_body]
pub(crate) fn join(base: &str, path: &str) -> (joined: String)
    ensures
        is_join(base@, path@, joined@),
{
    Utf8Path::new(base).join(path).into_string()
}

/// `Utf8Path::file_stem` of `camino`: the name at the end of the path, without its extension, as
/// the operating system reads the path. Only little is said of what Windows makes of paths that
/// begin with two separators but not with a prefix that it knows, and of verbatim paths that end
/// in a separator or in `.`.
#[verifier::external_body]
pub(crate) fn file_stem(path: &str) -> (found: Option<String>)
    ensures
        is_file_stem(
            path@,
            match found {
                Some(name) => Some(name@),
                None => None,
            },
        ),
{
    Utf8Path::new(path).file_stem().map(|name| name.to_owned())
}

} // verus!

//! Paths as text: the file name component, and the names of the files that
//! are written next to a key or an artifact.

use vstd::prelude::*;

use crate::text::same_text;

verus! {

/// Whether `c` separates the components of a path. Both `/` and `\` do, so
/// that a path splits the same way wherever it was written.
pub open spec fn is_separator(c: char) -> bool {
    c == '/' || c == '\\'
}

/// Whether `c` separates the components of a path.
pub fn separates(c: char) -> (b: bool)
    ensures
        b == is_separator(c),
{
    c == '/' || c == '\\'
}

/// Where the last component of `path` starts: behind its last separator,
/// or at 0 where it has none.
pub open spec fn segment_start(path: Seq<char>) -> int
    decreases path.len(),
{
    if path.len() == 0 {
        0
    } else if is_separator(path.last()) {
        path.len() as int
    } else {
        segment_start(path.drop_last())
    }
}

/// The last component of `path`: what follows its last separator.
pub open spec fn last_segment(path: Seq<char>) -> Seq<char> {
    path.skip(segment_start(path))
}

/// The file name of `path`: its last component, unless that is empty (the
/// path is empty or ends in a separator) or is `.` or `..`.
pub open spec fn spec_file_name(path: Seq<char>) -> Option<Seq<char>> {
    let name = last_segment(path);
    if name.len() == 0 || name == "."@ || name == ".."@ {
        None
    } else {
        Some(name)
    }
}

/// The last component starts at 0 or just behind a separator, and holds no
/// separator itself.
pub proof fn lemma_segment_start(path: Seq<char>)
    ensures
        0 <= segment_start(path) <= path.len(),
        segment_start(path) > 0 ==> is_separator(path[segment_start(path) - 1]),
        forall|i: int| segment_start(path) <= i < path.len() ==> !is_separator(#[trigger] path[i]),
    decreases path.len(),
{
    if path.len() > 0 && !is_separator(path.last()) {
        let shorter = path.drop_last();
        lemma_segment_start(shorter);
        assert forall|i: int| segment_start(path) <= i < path.len() implies !is_separator(
            #[trigger] path[i],
        ) by {
            if i < shorter.len() {
                assert(path[i] == shorter[i]);
            }
        }
    }
}

/// A file name holds no separator and is not empty.
pub proof fn lemma_file_name_is_one_component(path: Seq<char>)
    requires
        spec_file_name(path) is Some,
    ensures
        spec_file_name(path)->0.len() > 0,
        forall|i: int|
            0 <= i < spec_file_name(path)->0.len() ==> !is_separator(
                #[trigger] spec_file_name(path)->0[i],
            ),
        path == path.take(segment_start(path)) + spec_file_name(path)->0,
{
    lemma_segment_start(path);
    let start = segment_start(path);
    let name = spec_file_name(path)->0;
    assert forall|i: int| 0 <= i < name.len() implies !is_separator(#[trigger] name[i]) by {
        assert(name[i] == path[start + i]);
    }
    assert(path =~= path.take(start) + name);
}

/// The file name component of `path`, if it has one.
pub fn file_name(path: &str) -> (name: Option<String>)
    ensures
        name is Some <==> spec_file_name(path@) is Some,
        name is Some ==> name->0@ == spec_file_name(path@)->0,
{
    let total = path.unicode_len();
    let mut start: usize = 0;
    let mut seen: usize = 0;
    while seen < total
        invariant
            total == path@.len(),
            start <= seen <= total,
            start == segment_start(path@.take(seen as int)),
        decreases total - seen,
    {
        let c = path.get_char(seen);
        seen = seen + 1;
        proof {
            let prefix = path@.take(seen as int);
            assert(prefix.drop_last() =~= path@.take(seen - 1));
            assert(prefix.last() == c);
        }
        if separates(c) {
            start = seen;
        }
    }
    assert(path@.take(seen as int) =~= path@);
    let name = path.substring_char(start, total);
    assert(name@ =~= last_segment(path@));
    if name.unicode_len() == 0 || same_text(name, ".") || same_text(name, "..") {
        None
    } else {
        Some(name.to_owned())
    }
}

/// `path` with `suffix` appended to its text.
pub fn with_suffix(path: &str, suffix: &str) -> (longer: String)
    ensures
        longer@ == path@ + suffix@,
{
    path.to_owned().concat(suffix)
}

} // verus!

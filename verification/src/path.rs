//! Joining a path onto a base directory, with `/` as the separator.

use vstd::prelude::*;
use vstd::string::*;

verus! {

/// The separator between the components of a path.
pub open spec fn separator() -> char {
    '/'
}

/// A path is absolute when it starts at the root.
pub open spec fn is_absolute(path: Seq<char>) -> bool {
    path.len() > 0 && path[0] == separator()
}

/// Whether a separator has to be put behind `base` before something is
/// appended: an empty base and one that already ends in a separator need none.
pub open spec fn needs_separator(base: Seq<char>) -> bool {
    base.len() > 0 && base.last() != separator()
}

/// `path` adjoined to `base`. An absolute `path` replaces `base`; otherwise
/// it is appended, after a separator where `base` lacks one.
pub open spec fn joined(base: Seq<char>, path: Seq<char>) -> Seq<char> {
    if is_absolute(path) {
        path
    } else if needs_separator(base) {
        base.push(separator()) + path
    } else {
        base + path
    }
}

/// What follows the last separator of `path`: the whole of it where it has
/// none, nothing where it ends in one.
pub open spec fn final_segment(path: Seq<char>) -> Seq<char>
    decreases path.len(),
{
    if path.len() == 0 || path.last() == separator() {
        Seq::empty()
    } else {
        final_segment(path.drop_last()).push(path.last())
    }
}

/// The final segment depends only on what follows a separator: whatever
/// stands before `head` and a separator, the final segment is that of `tail`.
pub proof fn lemma_final_segment_after_separator(head: Seq<char>, tail: Seq<char>)
    ensures
        final_segment(head.push(separator()) + tail) == final_segment(tail),
    decreases tail.len(),
{
    let whole = head.push(separator()) + tail;
    if tail.len() == 0 {
        assert(whole =~= head.push(separator()));
    } else {
        assert(whole.last() == tail.last());
        assert(whole.drop_last() =~= head.push(separator()) + tail.drop_last());
        if tail.last() != separator() {
            lemma_final_segment_after_separator(head, tail.drop_last());
        }
    }
}

/// Joining keeps the final segment: the joined path ends in the same name as
/// the path that was adjoined, whatever the base.
pub proof fn lemma_join_keeps_final_segment(base: Seq<char>, path: Seq<char>)
    ensures
        final_segment(joined(base, path)) == final_segment(path),
{
    if is_absolute(path) {
    } else if needs_separator(base) {
        lemma_final_segment_after_separator(base, path);
    } else if base.len() == 0 {
        assert(base + path =~= path);
    } else {
        assert(base.drop_last().push(separator()) =~= base);
        lemma_final_segment_after_separator(base.drop_last(), path);
    }
}

/// Joining onto an absolute base gives an absolute path.
pub proof fn lemma_join_is_absolute(base: Seq<char>, path: Seq<char>)
    requires
        is_absolute(base),
    ensures
        is_absolute(joined(base, path)),
{
}

/// The joined path ends in the path that was adjoined.
pub proof fn lemma_join_ends_in_path(base: Seq<char>, path: Seq<char>)
    ensures
        path.is_suffix_of(joined(base, path)),
{
    let whole = joined(base, path);
    assert(whole.subrange(whole.len() - path.len(), whole.len() as int) =~= path);
}

/// Adjoins `path` to `base`.
pub fn join(base: &str, path: &str) -> (result: String)
    ensures
        result@ == joined(base@, path@),
{
    let path_len: usize = path.unicode_len();
    if path_len > 0 && path.get_char(0) == '/' {
        return String::from_str(path);
    }
    let base_len: usize = base.unicode_len();
    let mut result = String::from_str(base);
    if base_len > 0 && base.get_char(base_len - 1) != '/' {
        proof {
            reveal_strlit("/");
        }
        result.append("/");
        assert(result@ =~= base@.push(separator()));
    }
    result.append(path);
    result
}

} // verus!

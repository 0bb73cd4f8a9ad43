//! Text logic on executable paths and names: exact string comparison and the
//! derivation of the unqualified file name from an absolute image path.

use vstd::prelude::*;
use vstd::string::StrSliceExecFns;

verus! {

/// Whether a character separates path components on the platform.
pub open spec fn is_path_sep(c: char) -> bool {
    c == '\\' || c == '/'
}

/// The index where a path's file-name component starts: right after the last
/// separator, or zero where the path holds no separator.
pub open spec fn file_name_start(path: Seq<char>) -> int
    decreases path.len(),
{
    if path.len() == 0 {
        0
    } else if is_path_sep(path.last()) {
        path.len() as int
    } else {
        file_name_start(path.drop_last())
    }
}

/// The unqualified file-name component of a path: what follows the last
/// separator. A path that is empty or ends in a separator has none.
pub open spec fn spec_file_name(path: Seq<char>) -> Option<Seq<char>> {
    if file_name_start(path) == path.len() {
        None
    } else {
        Some(path.subrange(file_name_start(path), path.len() as int))
    }
}

proof fn lemma_file_name_start_characterization(path: Seq<char>, n: int)
    requires
        0 <= n <= path.len(),
        n > 0 ==> is_path_sep(path[n - 1]),
        forall|j: int| n <= j < path.len() ==> !is_path_sep(path[j]),
    ensures
        n == file_name_start(path),
    decreases path.len(),
{
    if path.len() == 0 {
    } else if is_path_sep(path.last()) {
        assert(n == path.len());
    } else {
        assert(n < path.len());
        let front = path.drop_last();
        assert(forall|j: int| n <= j < front.len() ==> front[j] == path[j] && !is_path_sep(
            front[j],
        ));
        lemma_file_name_start_characterization(front, n);
    }
}

/// Compares two strings for exact, case-sensitive equality.
pub fn str_eq(a: &str, b: &str) -> (r: bool)
    ensures
        r == (a@ == b@),
{
    let a_len = a.unicode_len();
    let b_len = b.unicode_len();
    if a_len != b_len {
        return false;
    }
    let mut i: usize = 0;
    while i < a_len
        invariant
            0 <= i <= a_len,
            a_len == a@.len(),
            b_len == b@.len(),
            a_len == b_len,
            forall|j: int| 0 <= j < i ==> a@[j] == b@[j],
        decreases a_len - i,
    {
        if a.get_char(i) != b.get_char(i) {
            return false;
        }
        i = i + 1;
    }
    proof {
        assert(a@ =~= b@);
    }
    true
}

/// Derives the unqualified file name of an image path: the text after the
/// last path separator. Returns nothing when the path is empty or ends in a
/// separator, which a valid executable path never does.
pub fn file_name_of(path: &str) -> (r: Option<String>)
    ensures
        match r {
            Some(s) => spec_file_name(path@) == Some(s@),
            None => spec_file_name(path@) is None,
        },
{
    let len = path.unicode_len();
    let mut start: usize = 0;
    let mut i: usize = 0;
    while i < len
        invariant
            0 <= start <= i <= len,
            len == path@.len(),
            start > 0 ==> is_path_sep(path@[start as int - 1]),
            forall|j: int| start <= j < i ==> !is_path_sep(path@[j]),
        decreases len - i,
    {
        let c = path.get_char(i);
        if c == '\\' || c == '/' {
            start = i + 1;
        }
        i = i + 1;
    }
    proof {
        lemma_file_name_start_characterization(path@, start as int);
    }
    if start == len {
        None
    } else {
        Some(path.substring_char(start, len).to_owned())
    }
}

} // verus!

//! Character-level substring search, used to classify prompt messages.

use vstd::prelude::*;

verus! {

/// `needle` occurs in `haystack` starting at position `i`.
pub open spec fn occurs_at(haystack: Seq<char>, needle: Seq<char>, i: int) -> bool {
    &&& 0 <= i
    &&& i + needle.len() <= haystack.len()
    &&& haystack.subrange(i, i + needle.len()) == needle
}

/// `needle` occurs somewhere in `haystack`.
pub open spec fn contains_seq(haystack: Seq<char>, needle: Seq<char>) -> bool {
    exists|i: int| occurs_at(haystack, needle, i)
}

/// Does `needle` occur in `haystack` starting exactly at position `i`?
fn match_at(haystack: &str, needle: &str, i: usize) -> (r: bool)
    requires
        i + needle@.len() <= haystack@.len(),
    ensures
        r == occurs_at(haystack@, needle@, i as int),
{
    let h_len: usize = haystack.unicode_len();
    let n_len: usize = needle.unicode_len();
    let mut j: usize = 0;
    while j < n_len
        invariant
            h_len == haystack@.len(),
            n_len == needle@.len(),
            i + n_len <= h_len,
            0 <= j <= n_len,
            forall|t: int| 0 <= t < j ==> haystack@[i + t] == needle@[t],
        decreases n_len - j,
    {
        if haystack.get_char(i + j) != needle.get_char(j) {
            assert(!occurs_at(haystack@, needle@, i as int)) by {
                if occurs_at(haystack@, needle@, i as int) {
                    assert(haystack@.subrange(i as int, i + needle@.len())[j as int]
                        == haystack@[i + j]);
                }
            }
            return false;
        }
        j += 1;
    }
    assert(haystack@.subrange(i as int, i + needle@.len()) =~= needle@);
    true
}

/// Does `needle` occur anywhere in `haystack`?
pub fn contains_str(haystack: &str, needle: &str) -> (r: bool)
    ensures
        r == contains_seq(haystack@, needle@),
{
    let h_len: usize = haystack.unicode_len();
    let n_len: usize = needle.unicode_len();
    if n_len > h_len {
        assert(forall|i: int| !occurs_at(haystack@, needle@, i));
        return false;
    }
    if n_len == 0 {
        assert(occurs_at(haystack@, needle@, 0)) by {
            assert(haystack@.subrange(0, 0) =~= needle@);
        }
        return true;
    }
    let mut i: usize = 0;
    while i <= h_len - n_len
        invariant
            h_len == haystack@.len(),
            n_len == needle@.len(),
            1 <= n_len <= h_len,
            0 <= i <= h_len - n_len + 1,
            forall|k: int| 0 <= k < i ==> !occurs_at(haystack@, needle@, k),
        decreases h_len - n_len - i + 1,
    {
        if match_at(haystack, needle, i) {
            return true;
        }
        i += 1;
    }
    assert(forall|k: int| !occurs_at(haystack@, needle@, k));
    false
}

} // verus!

//! Byte-sequence searching shared by the marker and response parsers.

use vstd::prelude::*;

verus! {

/// `needle` occurs in `hay` with its first byte at index `i`.
pub open spec fn matches_at(hay: Seq<u8>, needle: Seq<u8>, i: int) -> bool {
    &&& 0 <= i
    &&& i + needle.len() <= hay.len()
    &&& hay.subrange(i, i + needle.len()) == needle
}

/// A non-empty `needle` occurs somewhere in `hay`.
pub open spec fn has_match(hay: Seq<u8>, needle: Seq<u8>) -> bool {
    needle.len() > 0 && exists|i: int| matches_at(hay, needle, i)
}

/// `i` is the leftmost position at which the non-empty `needle` occurs.
pub open spec fn is_first_match(hay: Seq<u8>, needle: Seq<u8>, i: int) -> bool {
    &&& needle.len() > 0
    &&& matches_at(hay, needle, i)
    &&& forall|j: int| 0 <= j < i ==> !matches_at(hay, needle, j)
}

/// The leftmost position of `needle` in `hay`, if any. An empty needle never
/// matches.
pub open spec fn first_match(hay: Seq<u8>, needle: Seq<u8>) -> Option<int> {
    if exists|i: int| is_first_match(hay, needle, i) {
        Some(choose|i: int| is_first_match(hay, needle, i))
    } else {
        None
    }
}

/// `hay` begins with `prefix`.
pub open spec fn has_prefix(hay: Seq<u8>, prefix: Seq<u8>) -> bool {
    prefix.len() <= hay.len() && hay.subrange(0, prefix.len() as int) == prefix
}

/// `hay` ends with `suffix`.
pub open spec fn has_suffix(hay: Seq<u8>, suffix: Seq<u8>) -> bool {
    suffix.len() <= hay.len() && hay.subrange(hay.len() - suffix.len(), hay.len() as int)
        == suffix
}

/// A leftmost match is the one that `first_match` names.
pub proof fn lemma_first_match_is(hay: Seq<u8>, needle: Seq<u8>, i: int)
    requires
        is_first_match(hay, needle, i),
    ensures
        first_match(hay, needle) == Some(i),
        has_match(hay, needle),
{
    let k = choose|k: int| is_first_match(hay, needle, k);
    assert(is_first_match(hay, needle, k));
    if k < i {
        assert(!matches_at(hay, needle, k));
    }
    if i < k {
        assert(!matches_at(hay, needle, i));
    }
}

/// Without any match there is no leftmost one, and conversely.
pub proof fn lemma_first_match_none(hay: Seq<u8>, needle: Seq<u8>)
    ensures
        first_match(hay, needle) is None <==> !has_match(hay, needle),
        first_match(hay, needle) matches Some(i) ==> is_first_match(hay, needle, i),
{
    if has_match(hay, needle) {
        let w = choose|i: int| matches_at(hay, needle, i);
        lemma_least_match(hay, needle, w);
    }
    if first_match(hay, needle) is Some {
        let k = choose|k: int| is_first_match(hay, needle, k);
        assert(matches_at(hay, needle, k));
    }
}

/// Below any match lies a leftmost match.
proof fn lemma_least_match(hay: Seq<u8>, needle: Seq<u8>, w: int)
    requires
        needle.len() > 0,
        matches_at(hay, needle, w),
    ensures
        exists|i: int| is_first_match(hay, needle, i),
    decreases w,
{
    if exists|j: int| 0 <= j < w && matches_at(hay, needle, j) {
        let j = choose|j: int| 0 <= j < w && matches_at(hay, needle, j);
        lemma_least_match(hay, needle, j);
    } else {
        assert(is_first_match(hay, needle, w));
    }
}

/// Whether `needle` sits in `hay` at byte offset `at`.
pub fn window_matches(hay: &[u8], needle: &[u8], at: usize) -> (r: bool)
    ensures
        r == matches_at(hay@, needle@, at as int),
{
    let n = needle.len();
    let h = hay.len();
    if at > h || n > h - at {
        return false;
    }
    let mut k: usize = 0;
    while k < n
        invariant
            n == needle@.len(),
            h == hay@.len(),
            k <= n,
            at + n <= hay@.len(),
            forall|j: int| 0 <= j < k ==> hay@[at + j] == needle@[j],
        decreases n - k,
    {
        if hay[at + k] != needle[k] {
            proof {
                let w = hay@.subrange(at as int, at + n);
                assert(w[k as int] == hay@[at + k]);
            }
            return false;
        }
        k += 1;
    }
    proof {
        assert(hay@.subrange(at as int, at + n) =~= needle@);
    }
    true
}

/// Finds the leftmost occurrence of `needle` in `haystack`. An empty needle, or
/// one longer than the haystack, is never found.
pub fn find_subslice(haystack: &[u8], needle: &[u8]) -> (r: Option<usize>)
    ensures
        match r {
            Some(i) => first_match(haystack@, needle@) == Some(i as int),
            None => first_match(haystack@, needle@) is None,
        },
        r matches Some(i) ==> i + needle@.len() <= haystack@.len(),
{
    let n = needle.len();
    let h = haystack.len();
    if n == 0 || h < n {
        proof {
            lemma_first_match_none(haystack@, needle@);
        }
        return None;
    }
    let last = h - n;
    let mut i: usize = 0;
    while i <= last
        invariant
            n == needle@.len(),
            h == haystack@.len(),
            n > 0,
            n <= h,
            last == h - n,
            i <= last + 1,
            forall|j: int| 0 <= j < i ==> !matches_at(haystack@, needle@, j),
        decreases last + 1 - i,
    {
        if window_matches(haystack, needle, i) {
            proof {
                lemma_first_match_is(haystack@, needle@, i as int);
            }
            return Some(i);
        }
        i += 1;
    }
    proof {
        lemma_first_match_none(haystack@, needle@);
    }
    None
}

/// Whether `hay` begins with `prefix`.
pub fn starts_with(hay: &[u8], prefix: &[u8]) -> (r: bool)
    ensures
        r == has_prefix(hay@, prefix@),
{
    window_matches(hay, prefix, 0)
}

/// Whether `hay` ends with `suffix`.
pub fn ends_with(hay: &[u8], suffix: &[u8]) -> (r: bool)
    ensures
        r == has_suffix(hay@, suffix@),
{
    if suffix.len() > hay.len() {
        return false;
    }
    window_matches(hay, suffix, hay.len() - suffix.len())
}

} // verus!

//! Verified character-level string operations: equality, prefix tests
//! and substring search.

use vstd::prelude::*;
use vstd::string::*;

verus! {

/// Whether `needle` occurs in `hay` starting at position `i`.
pub open spec fn is_match_at(hay: Seq<char>, needle: Seq<char>, i: int) -> bool {
    0 <= i && i + needle.len() <= hay.len() && hay.subrange(i, i + needle.len() as int) == needle
}

/// Whether `needle` occurs anywhere in `hay` as a contiguous run.
pub open spec fn seq_contains(hay: Seq<char>, needle: Seq<char>) -> bool {
    exists|i: int| is_match_at(hay, needle, i)
}

/// Character-for-character string equality.
pub fn str_eq(a: &str, b: &str) -> (r: bool)
    ensures
        r == (a@ == b@),
{
    let alen = a.unicode_len();
    let blen = b.unicode_len();
    if alen != blen {
        return false;
    }
    let mut i: usize = 0;
    while i < alen
        invariant
            alen == a@.len(),
            alen == b@.len(),
            0 <= i <= alen,
            forall|k: int| 0 <= k < i ==> a@[k] == b@[k],
        decreases alen - i,
    {
        if a.get_char(i) != b.get_char(i) {
            return false;
        }
        i = i + 1;
    }
    proof {
        assert(a@ =~= b@);
    }
    true
}

/// Whether `p` is a prefix of `s`.
pub fn has_prefix(s: &str, p: &str) -> (r: bool)
    ensures
        r == (p@.len() <= s@.len() && s@.subrange(0, p@.len() as int) == p@),
{
    let plen = p.unicode_len();
    let slen = s.unicode_len();
    if plen > slen {
        return false;
    }
    let mut i: usize = 0;
    while i < plen
        invariant
            plen == p@.len(),
            slen == s@.len(),
            plen <= slen,
            0 <= i <= plen,
            forall|k: int| 0 <= k < i ==> s@[k] == p@[k],
        decreases plen - i,
    {
        if s.get_char(i) != p.get_char(i) {
            proof {
                assert(s@.subrange(0, plen as int)[i as int] == s@[i as int]);
            }
            return false;
        }
        i = i + 1;
    }
    proof {
        assert(s@.subrange(0, plen as int) =~= p@);
    }
    true
}

/// Whether `needle` occurs in `hay` as a contiguous substring.
pub fn contains_substring(hay: &str, needle: &str) -> (r: bool)
    ensures
        r == seq_contains(hay@, needle@),
{
    let hlen = hay.unicode_len();
    let nlen = needle.unicode_len();
    if nlen > hlen {
        proof {
            assert forall|k: int| !is_match_at(hay@, needle@, k) by {}
        }
        return false;
    }
    let bound = hlen - nlen;
    let mut i: usize = 0;
    while i <= bound
        invariant
            hlen == hay@.len(),
            nlen == needle@.len(),
            nlen <= hlen,
            bound == hlen - nlen,
            0 <= i <= bound + 1,
            forall|k: int| 0 <= k < i ==> !is_match_at(hay@, needle@, k),
        decreases bound + 1 - i,
    {
        let mut j: usize = 0;
        let mut matched = true;
        while j < nlen
            invariant
                hlen == hay@.len(),
                nlen == needle@.len(),
                0 <= i <= hlen - nlen,
                0 <= j <= nlen,
                matched == (forall|t: int| 0 <= t < j ==> hay@[i + t] == needle@[t]),
            decreases nlen - j,
        {
            let same = hay.get_char(i + j) == needle.get_char(j);
            matched = matched && same;
            j = j + 1;
        }
        if matched {
            proof {
                assert(hay@.subrange(i as int, i + nlen as int) =~= needle@);
                assert(is_match_at(hay@, needle@, i as int));
            }
            return true;
        }
        proof {
            assert(!is_match_at(hay@, needle@, i as int)) by {
                if hay@.subrange(i as int, i + nlen as int) == needle@ {
                    assert forall|t: int| 0 <= t < nlen implies hay@[i + t] == needle@[t] by {
                        assert(hay@.subrange(i as int, i + nlen as int)[t] == hay@[i + t]);
                    }
                }
            }
        }
        i = i + 1;
    }
    proof {
        assert forall|k: int| !is_match_at(hay@, needle@, k) by {
            if 0 <= k && k + needle@.len() <= hay@.len() {
                assert(k < i);
            }
        }
    }
    false
}

} // verus!

//! Comparison of text by content.

use vstd::prelude::*;
use vstd::string::StringSliceAdditionalSpecFns;
use vstd::utf8::{encode_utf8, encode_utf8_decode_utf8};

verus! {

/// Two character sequences with the same UTF-8 encoding are the same sequence.
pub proof fn lemma_encoding_is_injective(a: Seq<char>, b: Seq<char>)
    requires
        encode_utf8(a) == encode_utf8(b),
    ensures
        a == b,
{
    encode_utf8_decode_utf8(a);
    encode_utf8_decode_utf8(b);
}

/// Whether `a` and `b` hold the same characters.
pub fn text_eq(a: &str, b: &str) -> (same: bool)
    ensures
        same == (a@ == b@),
{
    let x = a.as_bytes();
    let y = b.as_bytes();
    if x.len() != y.len() {
        return false;
    }
    let n = x.len();
    let mut i: usize = 0;
    while i < n
        invariant
            n == x@.len(),
            n == y@.len(),
            i <= n,
            x@ == a.spec_bytes(),
            y@ == b.spec_bytes(),
            forall|k: int| 0 <= k < i ==> x@[k] == y@[k],
        decreases n - i,
    {
        if x[i] != y[i] {
            return false;
        }
        i += 1;
    }
    proof {
        assert(x@ =~= y@);
        lemma_encoding_is_injective(a@, b@);
    }
    true
}

/// Whether `needle` stands in `haystack` from the place `at` on.
pub open spec fn occurs_at(needle: Seq<u8>, haystack: Seq<u8>, at: int) -> bool {
    &&& 0 <= at
    &&& at + needle.len() <= haystack.len()
    &&& haystack.subrange(at, at + needle.len()) == needle
}

/// Whether `needle` stands somewhere in `haystack`.
pub open spec fn occurs(needle: Seq<u8>, haystack: Seq<u8>) -> bool {
    exists|at: int| occurs_at(needle, haystack, at)
}

/// Whether the text `marker` stands somewhere in the text `report`, both
/// taken as UTF-8.
pub open spec fn mentions(report: Seq<char>, marker: Seq<char>) -> bool {
    occurs(encode_utf8(marker), encode_utf8(report))
}

fn stands_at(needle: &[u8], haystack: &[u8], at: usize) -> (stands: bool)
    requires
        at + needle@.len() <= haystack@.len(),
    ensures
        stands == occurs_at(needle@, haystack@, at as int),
{
    let n = needle.len();
    let h = haystack.len();
    let mut i: usize = 0;
    while i < n
        invariant
            n == needle@.len(),
            h == haystack@.len(),
            at + n <= h,
            i <= n,
            forall|k: int| 0 <= k < i ==> haystack@[at + k] == needle@[k],
        decreases n - i,
    {
        if haystack[at + i] != needle[i] {
            proof {
                assert(haystack@.subrange(at as int, at + n)[i as int] == haystack@[at + i]);
            }
            return false;
        }
        i += 1;
    }
    proof {
        assert(haystack@.subrange(at as int, at + n) =~= needle@);
    }
    true
}

/// Whether `marker` stands somewhere in `report`.
pub fn contains(report: &str, marker: &str) -> (found: bool)
    ensures
        found == mentions(report@, marker@),
{
    let haystack = report.as_bytes();
    let needle = marker.as_bytes();
    let h = haystack.len();
    let n = needle.len();
    if n > h {
        return false;
    }
    let last: usize = h - n;
    let mut at: usize = 0;
    loop
        invariant
            h == haystack@.len(),
            n == needle@.len(),
            last == h - n,
            at <= last,
            haystack@ == report.spec_bytes(),
            needle@ == marker.spec_bytes(),
            forall|k: int| 0 <= k < at ==> !occurs_at(needle@, haystack@, k),
        decreases last - at,
    {
        if stands_at(needle, haystack, at) {
            return true;
        }
        if at == last {
            return false;
        }
        at += 1;
    }
}

} // verus!

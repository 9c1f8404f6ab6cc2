//! Fixed-width integers as bytes, in either byte order.
use vstd::bytes::{
    lemma_auto_spec_u64_to_from_le_bytes, spec_u64_from_le_bytes, spec_u64_to_le_bytes,
    u64_from_le_bytes, u64_to_le_bytes,
};
use vstd::prelude::*;

verus! {

/// The big-endian bytes of `x`.
pub open spec fn spec_u64_to_be_bytes(x: u64) -> Seq<u8> {
    spec_u64_to_le_bytes(x).reverse()
}

/// The number whose big-endian bytes are `s`.
pub open spec fn spec_u64_from_be_bytes(s: Seq<u8>) -> u64 {
    spec_u64_from_le_bytes(s.reverse())
}

/// The bytes of `s` in the opposite order.
pub fn reversed(s: &[u8]) -> (r: Vec<u8>)
    ensures
        r@ == s@.reverse(),
{
    let mut r: Vec<u8> = Vec::new();
    let n = s.len();
    let mut i: usize = n;
    while i > 0
        invariant
            i <= n == s@.len(),
            r@.len() == n - i,
            forall|j: int| 0 <= j < n - i ==> #[trigger] r@[j] == s@[n - 1 - j],
        decreases i,
    {
        i -= 1;
        r.push(s[i]);
    }
    assert(r@ =~= s@.reverse());
    r
}

/// Whether the first bytes of `bytes` are `expected`.
pub(crate) fn starts_with(bytes: &[u8], expected: &[u8]) -> (r: bool)
    requires
        expected@.len() <= bytes@.len(),
    ensures
        r == (bytes@.subrange(0, expected@.len() as int) == expected@),
{
    let mut i: usize = 0;
    while i < expected.len()
        invariant
            i <= expected@.len() <= bytes@.len(),
            forall|j: int| 0 <= j < i ==> bytes@[j] == expected@[j],
        decreases expected@.len() - i,
    {
        if bytes[i] != expected[i] {
            assert(bytes@.subrange(0, expected@.len() as int)[i as int] != expected@[i as int]);
            return false;
        }
        i += 1;
    }
    assert(bytes@.subrange(0, expected@.len() as int) =~= expected@);
    true
}

/// The big-endian bytes of `x`, as `u64::to_be_bytes` gives them.
pub fn u64_to_be_bytes(x: u64) -> (r: Vec<u8>)
    ensures
        r@ == spec_u64_to_be_bytes(x),
        r@.len() == 8,
{
    let le = u64_to_le_bytes(x);
    reversed(le.as_slice())
}

/// The number whose big-endian bytes are `s`, as `u64::from_be_bytes` reads them.
pub fn u64_from_be_bytes(s: &[u8]) -> (x: u64)
    requires
        s@.len() == 8,
    ensures
        x == spec_u64_from_be_bytes(s@),
{
    let le = reversed(s);
    u64_from_le_bytes(le.as_slice())
}

/// Reading back the big-endian bytes of a number gives the number.
pub proof fn lemma_u64_be_roundtrip(x: u64)
    ensures
        spec_u64_to_be_bytes(x).len() == 8,
        spec_u64_from_be_bytes(spec_u64_to_be_bytes(x)) == x,
{
    lemma_auto_spec_u64_to_from_le_bytes();
    let le = spec_u64_to_le_bytes(x);
    assert(le.reverse().reverse() =~= le);
}

} // verus!

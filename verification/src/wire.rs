//! Signed 64-bit integers as eight little-endian bytes.
//!
//! Unsigned integers are covered by `vstd::bytes`. A signed integer goes over
//! the wire as the unsigned integer with the same 64 bits (two's complement).

use vstd::prelude::*;
use vstd::bytes::*;

verus! {

/// The eight little-endian bytes of `x` in two's complement.
pub open spec fn spec_i64_to_le_bytes(x: i64) -> Seq<u8> {
    spec_u64_to_le_bytes(x as u64)
}

/// The signed integer whose two's complement is held, little-endian, in `s`.
pub open spec fn spec_i64_from_le_bytes(s: Seq<u8>) -> i64
    recommends
        s.len() == 8,
{
    spec_u64_from_le_bytes(s) as i64
}

/// Every signed integer has eight bytes, and reading them gives it back.
pub proof fn lemma_i64_to_from_le_bytes(x: i64)
    ensures
        spec_i64_to_le_bytes(x).len() == 8,
        spec_i64_from_le_bytes(spec_i64_to_le_bytes(x)) == x,
{
    lemma_auto_spec_u64_to_from_le_bytes();
    assert((x as u64) as i64 == x) by (bit_vector);
}

/// Any eight bytes are the bytes of the signed integer read from them.
pub proof fn lemma_i64_from_to_le_bytes(s: Seq<u8>)
    requires
        s.len() == 8,
    ensures
        spec_i64_to_le_bytes(spec_i64_from_le_bytes(s)) == s,
{
    lemma_auto_spec_u64_to_from_le_bytes();
    let u = spec_u64_from_le_bytes(s);
    assert((u as i64) as u64 == u) by (bit_vector);
}

/// Writes `x` as eight little-endian bytes.
pub(crate) fn i64_to_le_bytes(x: i64) -> (s: Vec<u8>)
    ensures
        s@ == spec_i64_to_le_bytes(x),
{
    u64_to_le_bytes(#[verifier::truncate] (x as u64))
}

/// Reads a signed integer from eight little-endian bytes.
pub(crate) fn i64_from_le_bytes(s: &[u8]) -> (x: i64)
    requires
        s@.len() == 8,
    ensures
        x == spec_i64_from_le_bytes(s@),
{
    let bits = u64_from_le_bytes(s);
    #[verifier::truncate] (bits as i64)
}

} // verus!

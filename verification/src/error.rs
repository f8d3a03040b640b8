//! Failures of the donation pipeline.

use vstd::prelude::*;

verus! {

/// Why a donation was not recorded.
#[derive(Clone, Copy, Debug, PartialEq, Eq, Structural)]
pub enum ErrorCode {
    /// The proof payload holds no bytes at all.
    InvalidProofData,
    /// The proof payload is too short to hold the donation's public inputs.
    InvalidProofFormat,
    /// The bytes handed over as a leaf are shorter than a leaf.
    TruncatedLeaf,
    /// The accumulator did not complete the append.
    MerkleTreeUpdateFailed,
    /// A running total would leave the range of a `u64`.
    ArithmeticOverflow,
}

} // verus!

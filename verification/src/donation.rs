//! The donation facts that a proof payload carries, and how they are read.
//!
//! A payload starts with the donation's public inputs: the amount (8 bytes,
//! little-endian), the donor's commitment (32 bytes) and the timestamp
//! (8 bytes, little-endian, signed). Whatever follows belongs to the proof
//! system and is not looked at here.

use vstd::prelude::*;
use vstd::bytes::*;
use vstd::slice::*;
use crate::error::ErrorCode;
use crate::wire::{i64_from_le_bytes, spec_i64_from_le_bytes};

verus! {

/// Length of a donor commitment in bytes.
pub const COMMITMENT_LEN: usize = 32;

/// Length of the public inputs at the start of a proof payload:
/// amount, commitment, timestamp.
pub const PUBLIC_INPUTS_LEN: usize = 48;

/// What a proof payload says about one donation.
#[derive(Clone, Copy, Debug, PartialEq, Eq)]
pub struct DonationData {
    /// The donated amount.
    pub amount: u64,
    /// A commitment that stands for the donor without naming them.
    pub donor_commitment: [u8; 32],
    /// When the donation was made, in seconds since the Unix epoch.
    pub timestamp: i64,
}

/// The mathematical content of a [`DonationData`].
pub struct DonationFacts {
    /// The donated amount.
    pub amount: u64,
    /// The donor's commitment, 32 bytes.
    pub donor_commitment: Seq<u8>,
    /// When the donation was made.
    pub timestamp: i64,
}

impl DonationFacts {
    /// The commitment has its fixed length.
    pub open spec fn wf(self) -> bool {
        self.donor_commitment.len() == COMMITMENT_LEN
    }
}

impl View for DonationData {
    type V = DonationFacts;

    open spec fn view(&self) -> DonationFacts {
        DonationFacts {
            amount: self.amount,
            donor_commitment: self.donor_commitment@,
            timestamp: self.timestamp,
        }
    }
}

/// What reading a proof payload yields: the facts at its fixed offsets, or the
/// reason why it holds none.
pub open spec fn spec_extract(proof: Seq<u8>) -> Result<DonationFacts, ErrorCode> {
    if proof.len() == 0 {
        Err(ErrorCode::InvalidProofData)
    } else if proof.len() < PUBLIC_INPUTS_LEN {
        Err(ErrorCode::InvalidProofFormat)
    } else {
        Ok(
            DonationFacts {
                amount: spec_u64_from_le_bytes(proof.subrange(0, 8)),
                donor_commitment: proof.subrange(8, 40),
                timestamp: spec_i64_from_le_bytes(proof.subrange(40, 48)),
            },
        )
    }
}

/// Two payloads that agree in their public inputs carry the same facts: what
/// follows the public inputs has no part in the result.
pub proof fn lemma_extract_ignores_tail(proof: Seq<u8>, other: Seq<u8>)
    requires
        proof.len() >= PUBLIC_INPUTS_LEN,
        other.len() >= PUBLIC_INPUTS_LEN,
        proof.take(PUBLIC_INPUTS_LEN as int) == other.take(PUBLIC_INPUTS_LEN as int),
    ensures
        spec_extract(proof) is Ok,
        spec_extract(proof) == spec_extract(other),
{
    let head = proof.take(PUBLIC_INPUTS_LEN as int);
    assert(proof.subrange(0, 8) =~= head.subrange(0, 8));
    assert(proof.subrange(8, 40) =~= head.subrange(8, 40));
    assert(proof.subrange(40, 48) =~= head.subrange(40, 48));
    assert(other.subrange(0, 8) =~= head.subrange(0, 8));
    assert(other.subrange(8, 40) =~= head.subrange(8, 40));
    assert(other.subrange(40, 48) =~= head.subrange(40, 48));
}

/// Copies the 32 bytes of `bytes` that start at `start`.
pub(crate) fn read_commitment(bytes: &[u8], start: usize) -> (commitment: [u8; 32])
    requires
        start + COMMITMENT_LEN <= bytes@.len(),
    ensures
        commitment@ == bytes@.subrange(start as int, start + COMMITMENT_LEN),
{
    let len = bytes.len();
    let mut commitment = [0u8; 32];
    let mut i: usize = 0;
    while i < COMMITMENT_LEN
        invariant
            i <= COMMITMENT_LEN,
            start + COMMITMENT_LEN <= len == bytes@.len(),
            forall|j: int| 0 <= j < i ==> commitment@[j] == bytes@[start + j],
        decreases COMMITMENT_LEN - i,
    {
        commitment[i] = bytes[start + i];
        i += 1;
    }
    assert(commitment@ =~= bytes@.subrange(start as int, start + COMMITMENT_LEN));
    commitment
}

/// Reads the donation facts from a proof payload.
///
/// An empty payload is refused as `InvalidProofData`, one shorter than the
/// public inputs as `InvalidProofFormat`. Any longer payload yields the facts;
/// bytes beyond the public inputs are ignored.
pub fn extract_donation_data(proof_data: &[u8]) -> (r: Result<DonationData, ErrorCode>)
    ensures
        match r {
            Ok(donation) => spec_extract(proof_data@) == Ok::<DonationFacts, ErrorCode>(donation@),
            Err(e) => spec_extract(proof_data@) == Err::<DonationFacts, ErrorCode>(e),
        },
{
    if proof_data.len() == 0 {
        return Err(ErrorCode::InvalidProofData);
    }
    if proof_data.len() < PUBLIC_INPUTS_LEN {
        return Err(ErrorCode::InvalidProofFormat);
    }
    let amount = u64_from_le_bytes(slice_subrange(proof_data, 0, 8));
    let donor_commitment = read_commitment(proof_data, 8);
    let timestamp = i64_from_le_bytes(slice_subrange(proof_data, 40, 48));
    Ok(DonationData { amount, donor_commitment, timestamp })
}

} // verus!

//! The donation leaf: the fixed-width record that is appended to a campaign's
//! accumulator.
//!
//! A leaf is 56 bytes: the amount (8), the donor's commitment (32), the
//! timestamp (8) and the campaign's identifier (8), in that order, every
//! integer little-endian. The bytes are the record itself; nothing is hashed
//! or compressed here.

use vstd::prelude::*;
use vstd::bytes::*;
use vstd::slice::*;
use crate::donation::{read_commitment, DonationData, DonationFacts, COMMITMENT_LEN};
use crate::error::ErrorCode;
use crate::wire::{
    i64_from_le_bytes, i64_to_le_bytes, lemma_i64_from_to_le_bytes, lemma_i64_to_from_le_bytes,
    spec_i64_from_le_bytes, spec_i64_to_le_bytes,
};

verus! {

/// Length of an encoded leaf in bytes.
pub const LEAF_LEN: usize = 56;

/// One donation as it enters a campaign's accumulator.
#[derive(Clone, Copy, Debug, PartialEq, Eq)]
pub struct DonationLeaf {
    /// The donated amount.
    pub amount: u64,
    /// A commitment that stands for the donor without naming them.
    pub donor_commitment: [u8; 32],
    /// When the donation was made, in seconds since the Unix epoch.
    pub timestamp: i64,
    /// The campaign that receives the donation.
    pub campaign_id: u64,
}

/// The mathematical content of a [`DonationLeaf`].
pub struct LeafRecord {
    /// The donated amount.
    pub amount: u64,
    /// The donor's commitment, 32 bytes.
    pub donor_commitment: Seq<u8>,
    /// When the donation was made.
    pub timestamp: i64,
    /// The campaign that receives the donation.
    pub campaign_id: u64,
}

impl LeafRecord {
    /// The commitment has its fixed length.
    pub open spec fn wf(self) -> bool {
        self.donor_commitment.len() == COMMITMENT_LEN
    }
}

impl View for DonationLeaf {
    type V = LeafRecord;

    open spec fn view(&self) -> LeafRecord {
        LeafRecord {
            amount: self.amount,
            donor_commitment: self.donor_commitment@,
            timestamp: self.timestamp,
            campaign_id: self.campaign_id,
        }
    }
}

/// The leaf that records `facts` for the campaign `campaign_id`.
pub open spec fn spec_leaf(facts: DonationFacts, campaign_id: u64) -> LeafRecord {
    LeafRecord {
        amount: facts.amount,
        donor_commitment: facts.donor_commitment,
        timestamp: facts.timestamp,
        campaign_id,
    }
}

/// The bytes of a leaf: its four fields one after the other.
pub open spec fn spec_serialize(leaf: LeafRecord) -> Seq<u8> {
    spec_u64_to_le_bytes(leaf.amount) + leaf.donor_commitment + spec_i64_to_le_bytes(
        leaf.timestamp,
    ) + spec_u64_to_le_bytes(leaf.campaign_id)
}

/// The leaf that `bytes` start with, or `TruncatedLeaf` where they are too few
/// to hold one.
pub open spec fn spec_deserialize(bytes: Seq<u8>) -> Result<LeafRecord, ErrorCode> {
    if bytes.len() < LEAF_LEN {
        Err(ErrorCode::TruncatedLeaf)
    } else {
        Ok(
            LeafRecord {
                amount: spec_u64_from_le_bytes(bytes.subrange(0, 8)),
                donor_commitment: bytes.subrange(8, 40),
                timestamp: spec_i64_from_le_bytes(bytes.subrange(40, 48)),
                campaign_id: spec_u64_from_le_bytes(bytes.subrange(48, 56)),
            },
        )
    }
}

/// An encoded leaf is exactly 56 bytes long, whatever it records.
pub proof fn lemma_serialize_len(leaf: LeafRecord)
    requires
        leaf.wf(),
    ensures
        spec_serialize(leaf).len() == LEAF_LEN,
{
    lemma_auto_spec_u64_to_from_le_bytes();
    lemma_i64_to_from_le_bytes(leaf.timestamp);
}

/// Where each field lies in an encoded leaf.
pub proof fn lemma_serialize_layout(leaf: LeafRecord)
    requires
        leaf.wf(),
    ensures
        spec_serialize(leaf).len() == LEAF_LEN,
        spec_serialize(leaf).subrange(0, 8) == spec_u64_to_le_bytes(leaf.amount),
        spec_serialize(leaf).subrange(8, 40) == leaf.donor_commitment,
        spec_serialize(leaf).subrange(40, 48) == spec_i64_to_le_bytes(leaf.timestamp),
        spec_serialize(leaf).subrange(48, 56) == spec_u64_to_le_bytes(leaf.campaign_id),
{
    lemma_auto_spec_u64_to_from_le_bytes();
    lemma_i64_to_from_le_bytes(leaf.timestamp);
    let bytes = spec_serialize(leaf);
    assert(bytes.subrange(0, 8) =~= spec_u64_to_le_bytes(leaf.amount));
    assert(bytes.subrange(8, 40) =~= leaf.donor_commitment);
    assert(bytes.subrange(40, 48) =~= spec_i64_to_le_bytes(leaf.timestamp));
    assert(bytes.subrange(48, 56) =~= spec_u64_to_le_bytes(leaf.campaign_id));
}

/// Decoding an encoded leaf gives back the leaf: amount, commitment, timestamp
/// and campaign identifier, each exactly.
pub proof fn lemma_deserialize_serialize(leaf: LeafRecord)
    requires
        leaf.wf(),
    ensures
        spec_deserialize(spec_serialize(leaf)) == Ok::<LeafRecord, ErrorCode>(leaf),
{
    lemma_serialize_layout(leaf);
    lemma_auto_spec_u64_to_from_le_bytes();
    lemma_i64_to_from_le_bytes(leaf.timestamp);
}

/// Any 56 bytes are the encoding of the leaf that they decode to.
pub proof fn lemma_serialize_deserialize(bytes: Seq<u8>)
    requires
        bytes.len() == LEAF_LEN,
    ensures
        spec_deserialize(bytes) is Ok,
        spec_deserialize(bytes)->Ok_0.wf(),
        spec_serialize(spec_deserialize(bytes)->Ok_0) == bytes,
{
    lemma_auto_spec_u64_to_from_le_bytes();
    lemma_i64_from_to_le_bytes(bytes.subrange(40, 48));
    let leaf = spec_deserialize(bytes)->Ok_0;
    assert(spec_serialize(leaf) =~= bytes);
}

/// Whatever follows the first 56 bytes has no part in what is decoded.
pub proof fn lemma_deserialize_ignores_tail(bytes: Seq<u8>, other: Seq<u8>)
    requires
        bytes.len() >= LEAF_LEN,
        other.len() >= LEAF_LEN,
        bytes.take(LEAF_LEN as int) == other.take(LEAF_LEN as int),
    ensures
        spec_deserialize(bytes) is Ok,
        spec_deserialize(bytes) == spec_deserialize(other),
{
    let head = bytes.take(LEAF_LEN as int);
    assert(bytes.subrange(0, 8) =~= head.subrange(0, 8));
    assert(bytes.subrange(8, 40) =~= head.subrange(8, 40));
    assert(bytes.subrange(40, 48) =~= head.subrange(40, 48));
    assert(bytes.subrange(48, 56) =~= head.subrange(48, 56));
    assert(other.subrange(0, 8) =~= head.subrange(0, 8));
    assert(other.subrange(8, 40) =~= head.subrange(8, 40));
    assert(other.subrange(40, 48) =~= head.subrange(40, 48));
    assert(other.subrange(48, 56) =~= head.subrange(48, 56));
}

/// The encoding depends on the leaf alone: equal leaves have the same bytes.
pub proof fn lemma_serialize_deterministic(a: LeafRecord, b: LeafRecord)
    requires
        a == b,
    ensures
        spec_serialize(a) == spec_serialize(b),
{
}

/// Different leaves never share an encoding.
pub proof fn lemma_serialize_injective(a: LeafRecord, b: LeafRecord)
    requires
        a.wf(),
        b.wf(),
        spec_serialize(a) == spec_serialize(b),
    ensures
        a == b,
{
    lemma_deserialize_serialize(a);
    lemma_deserialize_serialize(b);
}

impl DonationLeaf {
    /// The leaf that records `donation` for the campaign `campaign_id`.
    pub fn new(donation: &DonationData, campaign_id: u64) -> (leaf: Self)
        ensures
            leaf == (DonationLeaf {
                amount: donation.amount,
                donor_commitment: donation.donor_commitment,
                timestamp: donation.timestamp,
                campaign_id,
            }),
            leaf@ == spec_leaf(donation@, campaign_id),
    {
        DonationLeaf {
            amount: donation.amount,
            donor_commitment: donation.donor_commitment,
            timestamp: donation.timestamp,
            campaign_id,
        }
    }

    /// Encodes the leaf into its 56 bytes.
    pub fn serialize(&self) -> (bytes: Vec<u8>)
        ensures
            bytes@ == spec_serialize(self@),
            bytes@.len() == LEAF_LEN,
    {
        let mut bytes = u64_to_le_bytes(self.amount);
        let mut i: usize = 0;
        while i < COMMITMENT_LEN
            invariant
                i <= COMMITMENT_LEN,
                bytes@ == spec_u64_to_le_bytes(self.amount) + self.donor_commitment@.subrange(
                    0,
                    i as int,
                ),
            decreases COMMITMENT_LEN - i,
        {
            bytes.push(self.donor_commitment[i]);
            i += 1;
        }
        assert(self.donor_commitment@.subrange(0, COMMITMENT_LEN as int)
            =~= self.donor_commitment@);
        let mut timestamp = i64_to_le_bytes(self.timestamp);
        bytes.append(&mut timestamp);
        let mut campaign_id = u64_to_le_bytes(self.campaign_id);
        bytes.append(&mut campaign_id);
        proof {
            lemma_serialize_len(self@);
        }
        bytes
    }

    /// Decodes the leaf at the start of `bytes`.
    ///
    /// Fewer than 56 bytes are refused as `TruncatedLeaf`; bytes beyond the
    /// leaf are ignored.
    pub fn deserialize(bytes: &[u8]) -> (r: Result<DonationLeaf, ErrorCode>)
        ensures
            match r {
                Ok(leaf) => spec_deserialize(bytes@) == Ok::<LeafRecord, ErrorCode>(leaf@),
                Err(e) => spec_deserialize(bytes@) == Err::<LeafRecord, ErrorCode>(e),
            },
    {
        if bytes.len() < LEAF_LEN {
            return Err(ErrorCode::TruncatedLeaf);
        }
        let amount = u64_from_le_bytes(slice_subrange(bytes, 0, 8));
        let donor_commitment = read_commitment(bytes, 8);
        let timestamp = i64_from_le_bytes(slice_subrange(bytes, 40, 48));
        let campaign_id = u64_from_le_bytes(slice_subrange(bytes, 48, 56));
        Ok(DonationLeaf { amount, donor_commitment, timestamp, campaign_id })
    }
}

} // verus!

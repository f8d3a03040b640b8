//! The notification that describes a recorded donation.

use vstd::prelude::*;
use crate::accumulator::AccumulatorUpdate;
use crate::donation::DonationFacts;

verus! {

/// Tells observers that a donation has been recorded.
#[derive(Clone, Copy, Debug, PartialEq, Eq)]
pub struct DonationProcessedEvent {
    /// The campaign that received the donation.
    pub campaign_id: u64,
    /// The commitment that stands for the donor.
    pub donor_commitment: [u8; 32],
    /// The donated amount.
    pub amount: u64,
    /// When the donation was made.
    pub timestamp: i64,
    /// The position of the donation's leaf in the accumulator.
    pub leaf_index: u64,
    /// The accumulator's root after the leaf was appended.
    pub merkle_root: [u8; 32],
}

/// The mathematical content of a [`DonationProcessedEvent`].
pub struct AuditEvent {
    /// The campaign that received the donation.
    pub campaign_id: u64,
    /// The donor's commitment, 32 bytes.
    pub donor_commitment: Seq<u8>,
    /// The donated amount.
    pub amount: u64,
    /// When the donation was made.
    pub timestamp: i64,
    /// The position of the donation's leaf in the accumulator.
    pub position: u64,
    /// The accumulator's root after the leaf was appended, 32 bytes.
    pub new_root: Seq<u8>,
}

impl View for DonationProcessedEvent {
    type V = AuditEvent;

    open spec fn view(&self) -> AuditEvent {
        AuditEvent {
            campaign_id: self.campaign_id,
            donor_commitment: self.donor_commitment@,
            amount: self.amount,
            timestamp: self.timestamp,
            position: self.leaf_index,
            new_root: self.merkle_root@,
        }
    }
}

/// The event for the donation `facts` to the campaign `campaign_id`, once the
/// accumulator has answered with `update`.
pub open spec fn spec_event(
    campaign_id: u64,
    facts: DonationFacts,
    update: AccumulatorUpdate,
) -> AuditEvent {
    AuditEvent {
        campaign_id,
        donor_commitment: facts.donor_commitment,
        amount: facts.amount,
        timestamp: facts.timestamp,
        position: update.position,
        new_root: update.new_root,
    }
}

} // verus!

//! Recording a donation from end to end.
//!
//! A donation is recorded in four steps, in this order: the facts are read
//! from the proof payload, they are encoded as a leaf, the leaf is appended
//! to the campaign's accumulator, and the accumulator's answer is folded into
//! the campaign's record. The append is the one step that this library does
//! not perform itself. [`donate_compressed`] takes it as a function and calls
//! it once, between the second step and the fourth; a caller that has to
//! perform the append on its own calls [`prepare_donation`] before it and
//! [`settle_donation`] after it.
//!
//! Whichever step fails, the campaign's record stays as it was.

use vstd::prelude::*;
use crate::accumulator::MerkleTreeUpdate;
use crate::campaign::{spec_apply, CampaignInfo};
use crate::donation::{extract_donation_data, spec_extract, DonationData, DonationFacts};
use crate::error::ErrorCode;
use crate::event::{spec_event, DonationProcessedEvent};
use crate::leaf::{spec_leaf, spec_serialize, DonationLeaf, LEAF_LEN};

verus! {

/// The leaf that is handed to the accumulator for the donation in `proof`, if
/// `proof` holds one.
pub open spec fn spec_prepare(campaign_id: u64, proof: Seq<u8>) -> Result<
    (DonationFacts, Seq<u8>),
    ErrorCode,
> {
    match spec_extract(proof) {
        Ok(facts) => Ok((facts, spec_serialize(spec_leaf(facts, campaign_id)))),
        Err(e) => Err(e),
    }
}

/// How a donation ends once the accumulator has answered with `outcome`:
/// `after` and `r` are the campaign's record and the caller's result, `before`
/// is the record as it was.
///
/// A failed append is passed on as it came and the record is untouched. After
/// a successful one the donation is applied: the aggregate moves on and the
/// event is returned, or the totals would overflow and the record is
/// untouched.
pub open spec fn donation_settled(
    before: CampaignInfo,
    after: CampaignInfo,
    campaign_id: u64,
    facts: DonationFacts,
    outcome: Result<MerkleTreeUpdate, ErrorCode>,
    r: Result<DonationProcessedEvent, ErrorCode>,
) -> bool {
    match outcome {
        Err(e) => r == Err::<DonationProcessedEvent, ErrorCode>(e) && after == before,
        Ok(update) => match spec_apply(before@, facts, update@) {
            Ok(next) => {
                &&& r matches Ok(event)
                &&& event@ == spec_event(campaign_id, facts, update@)
                &&& after@ == next
                &&& after.same_campaign(before)
            },
            Err(e) => r == Err::<DonationProcessedEvent, ErrorCode>(e) && after == before,
        },
    }
}

/// Reads the donation from `proof_data` and encodes its leaf for the campaign
/// `campaign_id`: what has to be done before the accumulator is asked.
pub fn prepare_donation(campaign_id: u64, proof_data: &[u8]) -> (r: Result<
    (DonationData, Vec<u8>),
    ErrorCode,
>)
    ensures
        match r {
            Ok((donation, leaf)) => {
                &&& spec_prepare(campaign_id, proof_data@) == Ok::<
                    (DonationFacts, Seq<u8>),
                    ErrorCode,
                >((donation@, leaf@))
                &&& leaf@.len() == LEAF_LEN
            },
            Err(e) => spec_prepare(campaign_id, proof_data@) == Err::<
                (DonationFacts, Seq<u8>),
                ErrorCode,
            >(e),
        },
{
    match extract_donation_data(proof_data) {
        Ok(donation) => {
            let leaf = DonationLeaf::new(&donation, campaign_id).serialize();
            Ok((donation, leaf))
        },
        Err(e) => Err(e),
    }
}

/// Finishes a donation with the accumulator's answer: what has to be done
/// after the accumulator was asked.
pub fn settle_donation(
    campaign: &mut CampaignInfo,
    campaign_id: u64,
    donation: &DonationData,
    outcome: Result<MerkleTreeUpdate, ErrorCode>,
) -> (r: Result<DonationProcessedEvent, ErrorCode>)
    ensures
        donation_settled(*old(campaign), *final(campaign), campaign_id, donation@, outcome, r),
{
    match outcome {
        Ok(update) => campaign.update_campaign_state(campaign_id, &update, donation),
        Err(e) => Err(e),
    }
}

/// Records the donation that `proof_data` carries for the campaign
/// `campaign_id`.
///
/// `append` stands for the accumulator: it is called at most once, with the
/// donation's encoded leaf, and only if the payload holds a donation. The
/// campaign is borrowed for the whole call, so no second append for it can be
/// under way.
pub fn donate_compressed<F>(
    campaign: &mut CampaignInfo,
    campaign_id: u64,
    proof_data: &[u8],
    append: F,
) -> (r: Result<DonationProcessedEvent, ErrorCode>) where
    F: FnOnce(Vec<u8>) -> Result<MerkleTreeUpdate, ErrorCode>,

    requires
        forall|leaf: Vec<u8>|
            spec_prepare(campaign_id, proof_data@) is Ok && leaf@ == spec_prepare(
                campaign_id,
                proof_data@,
            )->Ok_0.1 ==> call_requires(append, (leaf,)),
    ensures
        match spec_prepare(campaign_id, proof_data@) {
            Err(e) => r == Err::<DonationProcessedEvent, ErrorCode>(e) && *final(campaign) == *old(
                campaign,
            ),
            Ok((facts, leaf_bytes)) => exists|
                leaf: Vec<u8>,
                outcome: Result<MerkleTreeUpdate, ErrorCode>,
            |
                {
                    &&& leaf@ == leaf_bytes
                    &&& call_ensures(append, (leaf,), outcome)
                    &&& donation_settled(
                        *old(campaign),
                        *final(campaign),
                        campaign_id,
                        facts,
                        outcome,
                        r,
                    )
                },
        },
{
    let (donation, leaf) = match prepare_donation(campaign_id, proof_data) {
        Ok(prepared) => prepared,
        Err(e) => {
            return Err(e);
        },
    };
    let ghost handed = leaf;
    let outcome = append(leaf);
    let r = settle_donation(campaign, campaign_id, &donation, outcome);
    proof {
        assert(call_ensures(append, (handed,), outcome));
        assert(donation_settled(*old(campaign), *campaign, campaign_id, donation@, outcome, r));
    }
    r
}

} // verus!

//! A campaign's record and the one operation that brings it up to date.
//!
//! Of a campaign's record the donation pipeline maintains four fields: the
//! accumulator's latest root, the total received, the number of donations and
//! the time of the last update. They form the campaign's aggregate, which is
//! the view of the record. The other fields say whose campaign it is and
//! where its funds and its tree are kept; recording a donation leaves them as
//! they are.

use vstd::prelude::*;
use crate::accumulator::{AccumulatorUpdate, MerkleTreeUpdate};
use crate::donation::{DonationData, DonationFacts};
use crate::error::ErrorCode;
use crate::event::{spec_event, DonationProcessedEvent};

verus! {

/// A campaign's record.
#[derive(Debug, PartialEq, Eq)]
pub struct CampaignInfo {
    /// The key of the campaign's creator.
    pub creator: [u8; 32],
    /// The campaign's title.
    pub title: String,
    /// The campaign's description.
    pub description: String,
    /// The mint of the token that the campaign collects.
    pub mint: [u8; 32],
    /// The token account that holds the campaign's funds.
    pub token_account: [u8; 32],
    /// The sum of all donations recorded so far.
    pub total_donation_received: u64,
    /// The account of the accumulator that holds the campaign's leaves.
    pub merkle_tree: [u8; 32],
    /// The accumulator's root after the latest append.
    pub latest_merkle_root: [u8; 32],
    /// The number of donations recorded so far.
    pub donation_count: u64,
    /// When the record was last brought up to date.
    pub last_update_time: i64,
}

/// The running totals of a campaign: the mathematical content of a
/// [`CampaignInfo`] as far as donations change it.
pub struct CampaignAggregate {
    /// The accumulator's root after the latest append, 32 bytes.
    pub latest_root: Seq<u8>,
    /// The sum of all donations applied so far.
    pub total_received: u64,
    /// The number of donations applied so far.
    pub donation_count: u64,
    /// The time of the latest append.
    pub last_update_time: i64,
}

impl Clone for CampaignInfo {
    /// A copy that agrees with the record in every field.
    fn clone(&self) -> (copy: Self)
        ensures
            copy == *self,
    {
        CampaignInfo {
            creator: self.creator,
            title: self.title.clone(),
            description: self.description.clone(),
            mint: self.mint,
            token_account: self.token_account,
            total_donation_received: self.total_donation_received,
            merkle_tree: self.merkle_tree,
            latest_merkle_root: self.latest_merkle_root,
            donation_count: self.donation_count,
            last_update_time: self.last_update_time,
        }
    }
}

impl View for CampaignInfo {
    type V = CampaignAggregate;

    open spec fn view(&self) -> CampaignAggregate {
        CampaignAggregate {
            latest_root: self.latest_merkle_root@,
            total_received: self.total_donation_received,
            donation_count: self.donation_count,
            last_update_time: self.last_update_time,
        }
    }
}

/// The aggregate of a campaign that has just been created: no root yet (32
/// zero bytes), nothing received, no donation counted.
pub open spec fn spec_created(now: i64) -> CampaignAggregate {
    CampaignAggregate {
        latest_root: Seq::new(32, |i: int| 0u8),
        total_received: 0,
        donation_count: 0,
        last_update_time: now,
    }
}

/// The aggregate after one donation has been applied to it, or
/// `ArithmeticOverflow` where the new total or the new count would leave the
/// range of a `u64`.
pub open spec fn spec_apply(
    aggregate: CampaignAggregate,
    facts: DonationFacts,
    update: AccumulatorUpdate,
) -> Result<CampaignAggregate, ErrorCode> {
    if aggregate.total_received + facts.amount > u64::MAX || aggregate.donation_count + 1
        > u64::MAX {
        Err(ErrorCode::ArithmeticOverflow)
    } else {
        Ok(
            CampaignAggregate {
                latest_root: update.new_root,
                total_received: (aggregate.total_received + facts.amount) as u64,
                donation_count: (aggregate.donation_count + 1) as u64,
                last_update_time: update.timestamp,
            },
        )
    }
}


/// One donation as it is applied: its facts and the accumulator's answer.
pub struct AppliedDonation {
    /// What the proof payload said of the donation.
    pub facts: DonationFacts,
    /// What the accumulator answered when the donation's leaf was appended.
    pub update: AccumulatorUpdate,
}

/// The aggregate after `donations` have been applied to it one after the
/// other, or the first failure met on the way.
pub open spec fn spec_apply_all(
    aggregate: CampaignAggregate,
    donations: Seq<AppliedDonation>,
) -> Result<CampaignAggregate, ErrorCode>
    decreases donations.len(),
{
    if donations.len() == 0 {
        Ok(aggregate)
    } else {
        match spec_apply_all(aggregate, donations.drop_last()) {
            Ok(before) => spec_apply(before, donations.last().facts, donations.last().update),
            Err(e) => Err(e),
        }
    }
}

/// The sum of the amounts of `donations`.
pub open spec fn spec_total_amount(donations: Seq<AppliedDonation>) -> nat
    decreases donations.len(),
{
    if donations.len() == 0 {
        0
    } else {
        spec_total_amount(donations.drop_last()) + donations.last().facts.amount as nat
    }
}

/// A donation that is applied moves the totals forward and never back: the
/// total grows by the amount, the count by one, and root and time are those of
/// the accumulator's answer.
pub proof fn lemma_apply_advances(
    aggregate: CampaignAggregate,
    facts: DonationFacts,
    update: AccumulatorUpdate,
)
    requires
        spec_apply(aggregate, facts, update) is Ok,
    ensures
        ({
            let next = spec_apply(aggregate, facts, update)->Ok_0;
            &&& next.total_received == aggregate.total_received + facts.amount
            &&& next.total_received >= aggregate.total_received
            &&& next.donation_count == aggregate.donation_count + 1
            &&& next.latest_root == update.new_root
            &&& next.last_update_time == update.timestamp
        }),
{
}

/// After any run of donations that were all applied, the total has grown by
/// the sum of their amounts and the count by their number, and root and time
/// are those of the last accumulator answer. Neither total nor count is ever
/// smaller than before.
pub proof fn lemma_apply_all_totals(aggregate: CampaignAggregate, donations: Seq<AppliedDonation>)
    requires
        spec_apply_all(aggregate, donations) is Ok,
    ensures
        ({
            let end = spec_apply_all(aggregate, donations)->Ok_0;
            &&& end.total_received == aggregate.total_received + spec_total_amount(donations)
            &&& end.donation_count == aggregate.donation_count + donations.len()
            &&& end.total_received >= aggregate.total_received
            &&& end.donation_count >= aggregate.donation_count
            &&& donations.len() == 0 ==> end == aggregate
            &&& donations.len() > 0 ==> {
                &&& end.latest_root == donations.last().update.new_root
                &&& end.last_update_time == donations.last().update.timestamp
            }
        }),
    decreases donations.len(),
{
    if donations.len() > 0 {
        lemma_apply_all_totals(aggregate, donations.drop_last());
    }
}

/// A run of donations may be cut anywhere: applying all of it is applying its
/// first `n` donations and then the rest. A failure in the first part is the
/// failure of the whole.
pub proof fn lemma_apply_all_split(
    aggregate: CampaignAggregate,
    donations: Seq<AppliedDonation>,
    n: int,
)
    requires
        0 <= n <= donations.len(),
    ensures
        spec_apply_all(aggregate, donations) == match spec_apply_all(aggregate, donations.take(n)) {
            Ok(middle) => spec_apply_all(middle, donations.skip(n)),
            Err(e) => Err(e),
        },
    decreases donations.len(),
{
    if n == donations.len() {
        assert(donations.take(n) =~= donations);
    } else {
        let shorter = donations.drop_last();
        lemma_apply_all_split(aggregate, shorter, n);
        assert(shorter.take(n) =~= donations.take(n));
        assert(shorter.skip(n) =~= donations.skip(n).drop_last());
        assert(donations.skip(n).last() == donations.last());
    }
}

/// At every point of a run of donations that were all applied, the aggregate
/// stands as the donations up to that point have left it: the total has grown
/// by the sum of their amounts, the count by their number, root and time are
/// those of the latest accumulator answer, and neither total nor count
/// exceeds what it is at the end of the run.
pub proof fn lemma_apply_all_at_each_step(
    aggregate: CampaignAggregate,
    donations: Seq<AppliedDonation>,
    n: int,
)
    requires
        spec_apply_all(aggregate, donations) is Ok,
        0 <= n <= donations.len(),
    ensures
        spec_apply_all(aggregate, donations.take(n)) is Ok,
        ({
            let middle = spec_apply_all(aggregate, donations.take(n))->Ok_0;
            let end = spec_apply_all(aggregate, donations)->Ok_0;
            &&& middle.total_received == aggregate.total_received + spec_total_amount(
                donations.take(n),
            )
            &&& middle.donation_count == aggregate.donation_count + n
            &&& n > 0 ==> {
                &&& middle.latest_root == donations[n - 1].update.new_root
                &&& middle.last_update_time == donations[n - 1].update.timestamp
            }
            &&& middle.total_received <= end.total_received
            &&& middle.donation_count <= end.donation_count
        }),
{
    lemma_apply_all_split(aggregate, donations, n);
    lemma_apply_all_totals(aggregate, donations.take(n));
    let middle = spec_apply_all(aggregate, donations.take(n))->Ok_0;
    lemma_apply_all_totals(middle, donations.skip(n));
}

/// Since its creation a campaign has received exactly the sum of the amounts
/// applied to it, and counted exactly as many donations as were applied.
pub proof fn lemma_totals_since_creation(now: i64, donations: Seq<AppliedDonation>)
    requires
        spec_apply_all(spec_created(now), donations) is Ok,
    ensures
        ({
            let end = spec_apply_all(spec_created(now), donations)->Ok_0;
            &&& end.total_received == spec_total_amount(donations)
            &&& end.donation_count == donations.len()
        }),
{
    lemma_apply_all_totals(spec_created(now), donations);
}

impl CampaignInfo {
    /// Whether `self` and `other` describe the same campaign: they agree in
    /// every field that recording a donation does not touch.
    pub open spec fn same_campaign(self, other: CampaignInfo) -> bool {
        &&& self.creator == other.creator
        &&& self.title == other.title
        &&& self.description == other.description
        &&& self.mint == other.mint
        &&& self.token_account == other.token_account
        &&& self.merkle_tree == other.merkle_tree
    }

    /// The record of a campaign at its creation.
    pub fn new(
        creator: [u8; 32],
        title: String,
        description: String,
        mint: [u8; 32],
        token_account: [u8; 32],
        merkle_tree: [u8; 32],
        now: i64,
    ) -> (campaign: CampaignInfo)
        ensures
            campaign@ == spec_created(now),
            campaign.creator == creator,
            campaign.title == title,
            campaign.description == description,
            campaign.mint == mint,
            campaign.token_account == token_account,
            campaign.merkle_tree == merkle_tree,
    {
        let campaign = CampaignInfo {
            creator,
            title,
            description,
            mint,
            token_account,
            total_donation_received: 0,
            merkle_tree,
            latest_merkle_root: [0u8; 32],
            donation_count: 0,
            last_update_time: now,
        };
        assert(campaign@.latest_root =~= spec_created(now).latest_root);
        campaign
    }

    /// Records one donation: folds the accumulator's answer and the donated
    /// amount into the campaign's aggregate and returns the event that
    /// describes the donation.
    ///
    /// Both additions are checked before anything is written. Where either
    /// would overflow, the call fails with `ArithmeticOverflow` and the record
    /// is left exactly as it was.
    pub fn update_campaign_state(
        &mut self,
        campaign_id: u64,
        merkle_update: &MerkleTreeUpdate,
        donation_data: &DonationData,
    ) -> (r: Result<DonationProcessedEvent, ErrorCode>)
        ensures
            match spec_apply(old(self)@, donation_data@, merkle_update@) {
                Ok(next) => {
                    &&& r matches Ok(event)
                    &&& event@ == spec_event(campaign_id, donation_data@, merkle_update@)
                    &&& final(self)@ == next
                    &&& final(self).same_campaign(*old(self))
                },
                Err(e) => r == Err::<DonationProcessedEvent, ErrorCode>(e) && *final(self) == *old(
                    self,
                ),
            },
    {
        let total = match self.total_donation_received.checked_add(donation_data.amount) {
            Some(total) => total,
            None => {
                return Err(ErrorCode::ArithmeticOverflow);
            },
        };
        let count = match self.donation_count.checked_add(1) {
            Some(count) => count,
            None => {
                return Err(ErrorCode::ArithmeticOverflow);
            },
        };
        self.latest_merkle_root = merkle_update.new_merkle_root;
        self.total_donation_received = total;
        self.donation_count = count;
        self.last_update_time = merkle_update.timestamp;
        Ok(
            DonationProcessedEvent {
                campaign_id,
                donor_commitment: donation_data.donor_commitment,
                amount: donation_data.amount,
                timestamp: donation_data.timestamp,
                leaf_index: merkle_update.leaf_index,
                merkle_root: merkle_update.new_merkle_root,
            },
        )
    }
}

} // verus!

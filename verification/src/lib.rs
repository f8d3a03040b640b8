//! Donation records for fundraising campaigns.
//!
//! A donation reaches a campaign as a proof payload that carries the donated
//! amount, a commitment standing for the donor, and a timestamp. The library
//! reads these facts ([`donation`]), encodes them as a fixed-width leaf
//! ([`leaf`]), has the leaf appended to the campaign's accumulator
//! ([`accumulator`]), folds the answer into the campaign's running totals
//! ([`campaign`]) and describes the donation in an event ([`event`]).
//! [`donate_compressed`] runs these steps in order. [`withdraw`] holds the
//! rule by which a campaign's creator takes out funds.

use vstd::prelude::*;

pub mod accumulator;
pub mod campaign;
pub mod donate_compressed;
pub mod donation;
pub mod error;
pub mod event;
pub mod leaf;
pub mod wire;
pub mod withdraw;

pub use accumulator::MerkleTreeUpdate;
pub use campaign::CampaignInfo;
pub use donation::DonationData;
pub use error::ErrorCode;
pub use event::DonationProcessedEvent;
pub use leaf::DonationLeaf;

verus! {

} // verus!

//! The rule for withdrawing a campaign's funds.
//!
//! Only the campaign's creator may withdraw, and no more than the record
//! says the campaign has received. The transfer itself and the bookkeeping
//! after it are the caller's business: this module decides, it moves nothing.

use vstd::prelude::*;
use crate::campaign::CampaignInfo;

verus! {

/// Why a withdrawal is refused.
#[derive(Clone, Copy, Debug, PartialEq, Eq, Structural)]
pub enum ErrorCode {
    /// The signer is not the campaign's creator.
    Unauthorized,
    /// The campaign has received less than is asked for.
    InsufficientFunds,
}

/// What is left of `total_received` once `amount` is withdrawn by `signer`, or
/// why `signer` may not withdraw it. The signer's standing is judged first.
pub open spec fn spec_withdraw(
    creator: Seq<u8>,
    signer: Seq<u8>,
    total_received: u64,
    amount: u64,
) -> Result<u64, ErrorCode> {
    if signer != creator {
        Err(ErrorCode::Unauthorized)
    } else if total_received < amount {
        Err(ErrorCode::InsufficientFunds)
    } else {
        Ok((total_received - amount) as u64)
    }
}

/// Whether two keys are the same, byte for byte.
pub fn same_key(a: &[u8; 32], b: &[u8; 32]) -> (same: bool)
    ensures
        same == (a@ == b@),
{
    let mut i: usize = 0;
    while i < 32
        invariant
            i <= 32,
            forall|j: int| 0 <= j < i ==> a@[j] == b@[j],
        decreases 32 - i,
    {
        if a[i] != b[i] {
            return false;
        }
        i += 1;
    }
    assert(a@ =~= b@);
    true
}

/// Decides a withdrawal of `withdraw_amount` from `campaign` that `signer`
/// asks for, and returns the total that the campaign's record is to hold once
/// the funds have been moved.
pub fn withdraw(campaign: &CampaignInfo, signer: &[u8; 32], withdraw_amount: u64) -> (r: Result<
    u64,
    ErrorCode,
>)
    ensures
        r == spec_withdraw(
            campaign.creator@,
            signer@,
            campaign.total_donation_received,
            withdraw_amount,
        ),
{
    if !same_key(signer, &campaign.creator) {
        return Err(ErrorCode::Unauthorized);
    }
    if campaign.total_donation_received < withdraw_amount {
        return Err(ErrorCode::InsufficientFunds);
    }
    Ok(campaign.total_donation_received - withdraw_amount)
}

} // verus!

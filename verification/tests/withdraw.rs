use zk_donations::withdraw::{same_key, withdraw, ErrorCode};
use zk_donations::CampaignInfo;

fn campaign(total: u64) -> CampaignInfo {
    let mut campaign = CampaignInfo::new(
        [7; 32],
        "Test Campaign".to_string(),
        "A campaign for medical aid".to_string(),
        [8; 32],
        [9; 32],
        [10; 32],
        1700000000,
    );
    campaign.total_donation_received = total;
    campaign
}

#[test]
fn the_creator_withdraws_what_is_there() {
    let campaign = campaign(1000);
    assert_eq!(withdraw(&campaign, &[7; 32], 42), Ok(958));
    assert_eq!(withdraw(&campaign, &[7; 32], 1000), Ok(0));
    assert_eq!(withdraw(&campaign, &[7; 32], 0), Ok(1000));
}

#[test]
fn nobody_else_withdraws() {
    let campaign = campaign(1000);
    assert_eq!(withdraw(&campaign, &[6; 32], 42), Err(ErrorCode::Unauthorized));
    let mut almost = [7u8; 32];
    almost[31] = 8;
    assert_eq!(withdraw(&campaign, &almost, 42), Err(ErrorCode::Unauthorized));
}

#[test]
fn more_than_was_received_is_refused() {
    let campaign = campaign(1000);
    assert_eq!(withdraw(&campaign, &[7; 32], 1001), Err(ErrorCode::InsufficientFunds));
    assert_eq!(withdraw(&campaign, &[7; 32], u64::MAX), Err(ErrorCode::InsufficientFunds));
}

#[test]
fn standing_is_judged_before_funds() {
    let campaign = campaign(1000);
    assert_eq!(withdraw(&campaign, &[6; 32], 1001), Err(ErrorCode::Unauthorized));
}

#[test]
fn deciding_a_withdrawal_leaves_the_record_alone() {
    let campaign = campaign(1000);
    let before = campaign.clone();
    let _ = withdraw(&campaign, &[7; 32], 42);
    assert_eq!(campaign, before);
}

#[test]
fn keys_are_compared_byte_for_byte() {
    assert!(same_key(&[1; 32], &[1; 32]));
    let mut other = [1u8; 32];
    other[0] = 2;
    assert!(!same_key(&[1; 32], &other));
    let mut other = [1u8; 32];
    other[31] = 0;
    assert!(!same_key(&[1; 32], &other));
}

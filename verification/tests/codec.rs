use zk_donations::leaf::LEAF_LEN;
use zk_donations::{DonationData, DonationLeaf, ErrorCode};

fn sample() -> DonationData {
    DonationData { amount: 100, donor_commitment: [1; 32], timestamp: 1652300800 }
}

#[test]
fn leaf_length_is_56() {
    assert_eq!(LEAF_LEN, 56);
    assert_eq!(DonationLeaf::new(&sample(), 12345).serialize().len(), 56);
}

#[test]
fn new_copies_the_donation_and_adds_the_campaign() {
    let leaf = DonationLeaf::new(&sample(), 12345);
    assert_eq!(
        leaf,
        DonationLeaf {
            amount: 100,
            donor_commitment: [1; 32],
            timestamp: 1652300800,
            campaign_id: 12345
        }
    );
}

#[test]
fn leaf_bytes_are_the_fields_in_order() {
    let bytes = DonationLeaf::new(&sample(), 12345).serialize();
    let mut expected = Vec::new();
    expected.extend_from_slice(&100u64.to_le_bytes());
    expected.extend_from_slice(&[1u8; 32]);
    expected.extend_from_slice(&1652300800i64.to_le_bytes());
    expected.extend_from_slice(&12345u64.to_le_bytes());
    assert_eq!(bytes, expected);
}

#[test]
fn leaf_bytes_written_out() {
    let leaf = DonationLeaf {
        amount: 0x0102_0304_0506_0708,
        donor_commitment: [0xab; 32],
        timestamp: -2,
        campaign_id: 12345,
    };
    let bytes = leaf.serialize();
    assert_eq!(bytes.len(), 56);
    assert_eq!(&bytes[0..8], &[8, 7, 6, 5, 4, 3, 2, 1]);
    assert_eq!(&bytes[8..40], &[0xab; 32]);
    assert_eq!(&bytes[40..48], &[0xfe, 0xff, 0xff, 0xff, 0xff, 0xff, 0xff, 0xff]);
    // 12345 = 0x3039
    assert_eq!(&bytes[48..56], &[0x39, 0x30, 0, 0, 0, 0, 0, 0]);
}

#[test]
fn decoding_gives_the_leaf_back() {
    let leaf = DonationLeaf::new(&sample(), 12345);
    let decoded = DonationLeaf::deserialize(&leaf.serialize()).unwrap();
    assert_eq!(decoded.amount, 100);
    assert_eq!(decoded.donor_commitment, [1; 32]);
    assert_eq!(decoded.timestamp, 1652300800);
    assert_eq!(decoded.campaign_id, 12345);
    assert_eq!(decoded, leaf);
}

#[test]
fn decoding_gives_extreme_leaves_back() {
    let mut commitment = [0u8; 32];
    for i in 0..32 {
        commitment[i] = (255 - i) as u8;
    }
    let leaves = [
        DonationLeaf { amount: 0, donor_commitment: [0; 32], timestamp: 0, campaign_id: 0 },
        DonationLeaf {
            amount: u64::MAX,
            donor_commitment: [0xff; 32],
            timestamp: i64::MAX,
            campaign_id: u64::MAX,
        },
        DonationLeaf { amount: 1, donor_commitment: commitment, timestamp: i64::MIN, campaign_id: 2 },
        DonationLeaf { amount: 1 << 63, donor_commitment: commitment, timestamp: -1, campaign_id: 1 << 32 },
    ];
    for leaf in leaves.iter() {
        let bytes = leaf.serialize();
        assert_eq!(bytes.len(), 56);
        assert_eq!(DonationLeaf::deserialize(&bytes), Ok(*leaf));
    }
}

#[test]
fn encoding_twice_gives_the_same_bytes() {
    let first = DonationLeaf::new(&sample(), 12345).serialize();
    let second = DonationLeaf::new(&sample(), 12345).serialize();
    assert_eq!(first, second);
}

#[test]
fn different_leaves_have_different_bytes() {
    let base = DonationLeaf::new(&sample(), 12345);
    let mut other_commitment = base;
    other_commitment.donor_commitment[31] = 2;
    let variants = [
        DonationLeaf { amount: 101, ..base },
        DonationLeaf { timestamp: 1652300801, ..base },
        DonationLeaf { campaign_id: 12346, ..base },
        other_commitment,
    ];
    for other in variants.iter() {
        assert_ne!(other.serialize(), base.serialize());
    }
}

#[test]
fn short_input_is_a_truncated_leaf() {
    assert_eq!(DonationLeaf::deserialize(&[]), Err(ErrorCode::TruncatedLeaf));
    assert_eq!(DonationLeaf::deserialize(&[0u8; 48]), Err(ErrorCode::TruncatedLeaf));
    let mut bytes = DonationLeaf::new(&sample(), 12345).serialize();
    bytes.pop();
    assert_eq!(bytes.len(), 55);
    assert_eq!(DonationLeaf::deserialize(&bytes), Err(ErrorCode::TruncatedLeaf));
}

#[test]
fn bytes_after_the_leaf_are_ignored() {
    let leaf = DonationLeaf::new(&sample(), 12345);
    let mut bytes = leaf.serialize();
    bytes.extend_from_slice(&[9, 9, 9, 9]);
    assert_eq!(DonationLeaf::deserialize(&bytes), Ok(leaf));
}

#[test]
fn any_56_bytes_are_the_encoding_of_what_they_decode_to() {
    let mut bytes = [0u8; 56];
    for i in 0..56 {
        bytes[i] = (i * 37 + 11) as u8;
    }
    let leaf = DonationLeaf::deserialize(&bytes).unwrap();
    assert_eq!(leaf.serialize(), bytes.to_vec());
}

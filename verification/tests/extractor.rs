use zk_donations::donation::{extract_donation_data, COMMITMENT_LEN, PUBLIC_INPUTS_LEN};
use zk_donations::{DonationData, ErrorCode};

fn payload(amount: u64, commitment: [u8; 32], timestamp: i64, tail: &[u8]) -> Vec<u8> {
    let mut proof = Vec::new();
    proof.extend_from_slice(&amount.to_le_bytes());
    proof.extend_from_slice(&commitment);
    proof.extend_from_slice(&timestamp.to_le_bytes());
    proof.extend_from_slice(tail);
    proof
}

#[test]
fn layout_constants() {
    assert_eq!(COMMITMENT_LEN, 32);
    assert_eq!(PUBLIC_INPUTS_LEN, 8 + 32 + 8);
}

#[test]
fn empty_payload_is_invalid_proof_data() {
    assert_eq!(extract_donation_data(&[]), Err(ErrorCode::InvalidProofData));
}

#[test]
fn three_byte_payload_is_invalid_proof_format() {
    assert_eq!(extract_donation_data(&[1, 2, 3]), Err(ErrorCode::InvalidProofFormat));
}

#[test]
fn one_byte_payload_is_invalid_proof_format() {
    assert_eq!(extract_donation_data(&[0]), Err(ErrorCode::InvalidProofFormat));
}

#[test]
fn payload_of_47_bytes_is_invalid_proof_format() {
    let proof = vec![7u8; 47];
    assert_eq!(extract_donation_data(&proof), Err(ErrorCode::InvalidProofFormat));
}

#[test]
fn payload_of_48_bytes_is_read() {
    let proof = payload(100, [1; 32], 1652300800, &[]);
    assert_eq!(proof.len(), 48);
    assert_eq!(
        extract_donation_data(&proof),
        Ok(DonationData { amount: 100, donor_commitment: [1; 32], timestamp: 1652300800 })
    );
}

#[test]
fn bytes_after_the_public_inputs_are_ignored() {
    let proof = payload(150, [2; 32], 1652400900, &[0x01, 0x02, 0x03, 0x04]);
    assert_eq!(proof.len(), 52);
    let donation = extract_donation_data(&proof).unwrap();
    assert_eq!(donation.amount, 150);
    assert_eq!(donation.donor_commitment, [2; 32]);
    assert_eq!(donation.timestamp, 1652400900);

    let longer = payload(150, [2; 32], 1652400900, &[0xff; 300]);
    assert_eq!(extract_donation_data(&longer), Ok(donation));
}

#[test]
fn fields_sit_at_their_offsets() {
    let mut proof = vec![0u8; 48];
    // amount 0x0807060504030201, least significant byte first
    for i in 0..8 {
        proof[i] = (i + 1) as u8;
    }
    for i in 0..32 {
        proof[8 + i] = 100 + i as u8;
    }
    // timestamp 2, least significant byte first
    proof[40] = 2;
    let donation = extract_donation_data(&proof).unwrap();
    assert_eq!(donation.amount, 0x0807_0605_0403_0201);
    let mut commitment = [0u8; 32];
    for i in 0..32 {
        commitment[i] = 100 + i as u8;
    }
    assert_eq!(donation.donor_commitment, commitment);
    assert_eq!(donation.timestamp, 2);
}

#[test]
fn timestamp_is_signed() {
    let mut proof = vec![0u8; 48];
    for b in proof[40..48].iter_mut() {
        *b = 0xff;
    }
    assert_eq!(extract_donation_data(&proof).unwrap().timestamp, -1);

    let proof = payload(0, [0; 32], i64::MIN, &[]);
    assert_eq!(extract_donation_data(&proof).unwrap().timestamp, i64::MIN);
    let proof = payload(0, [0; 32], -1652300800, &[]);
    assert_eq!(extract_donation_data(&proof).unwrap().timestamp, -1652300800);
}

#[test]
fn extreme_amounts_are_read() {
    let proof = payload(u64::MAX, [9; 32], i64::MAX, &[]);
    assert_eq!(
        extract_donation_data(&proof),
        Ok(DonationData { amount: u64::MAX, donor_commitment: [9; 32], timestamp: i64::MAX })
    );
    let proof = payload(0, [0; 32], 0, &[]);
    assert_eq!(
        extract_donation_data(&proof),
        Ok(DonationData { amount: 0, donor_commitment: [0; 32], timestamp: 0 })
    );
}

#[test]
fn extraction_does_not_depend_on_anything_but_the_payload() {
    let proof = payload(42, [3; 32], 17, &[5, 6]);
    assert_eq!(extract_donation_data(&proof), extract_donation_data(&proof.clone()));
}

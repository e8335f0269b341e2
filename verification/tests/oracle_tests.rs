use pv3::account::{id_to_bytes, ID_LEN};
use pv3::errors::PV3Error;
use pv3::oracle::{create_result_message, verify_ed25519_signature};

const MATCH_ID: u64 = 77;
const WINNER: u64 = 10;
const VERIFIER: u64 = 42;

fn verification_data(signature: &Vec<u8>, verifier: u64, message: &Vec<u8>) -> Vec<u8> {
    let mut data = vec![1u8];
    data.extend_from_slice(signature);
    data.extend_from_slice(&id_to_bytes(verifier));
    data.extend_from_slice(message);
    data
}

#[test]
fn id_encoding_is_little_endian_zero_padded() {
    let bytes = id_to_bytes(0x0102030405060708);
    assert_eq!(bytes.len(), ID_LEN);
    assert_eq!(&bytes[..8], &[8, 7, 6, 5, 4, 3, 2, 1]);
    assert_eq!(&bytes[8..], &[0u8; 24]);
}

#[test]
fn result_message_concatenates_ids_and_hash() {
    let hash = vec![0xcdu8; 32];
    let message = create_result_message(MATCH_ID, WINNER, &hash);
    assert_eq!(message.len(), 96);
    assert_eq!(&message[..32], id_to_bytes(MATCH_ID).as_slice());
    assert_eq!(&message[32..64], id_to_bytes(WINNER).as_slice());
    assert_eq!(&message[64..], hash.as_slice());
}

#[test]
fn result_messages_differ_for_different_matches() {
    let hash = vec![0u8; 32];
    let m1 = create_result_message(MATCH_ID, WINNER, &hash);
    let m2 = create_result_message(MATCH_ID + 1, WINNER, &hash);
    let m3 = create_result_message(MATCH_ID, WINNER + 1, &hash);
    assert_ne!(m1, m2);
    assert_ne!(m1, m3);
}

#[test]
fn verification_accepts_matching_instruction() {
    let signature = vec![9u8; 64];
    let message = create_result_message(MATCH_ID, WINNER, &vec![3u8; 32]);
    let data = verification_data(&signature, VERIFIER, &message);
    assert!(verify_ed25519_signature(&signature, &message, VERIFIER, &data).is_ok());
}

#[test]
fn verification_rejects_short_data() {
    let signature = vec![9u8; 64];
    let message = create_result_message(MATCH_ID, WINNER, &vec![3u8; 32]);
    let data = vec![1u8; 111];
    let r = verify_ed25519_signature(&signature, &message, VERIFIER, &data);
    assert_eq!(r.unwrap_err(), PV3Error::InvalidSignatureData);
}

#[test]
fn verification_rejects_wrong_signature_count() {
    let signature = vec![9u8; 64];
    let message = create_result_message(MATCH_ID, WINNER, &vec![3u8; 32]);
    let mut data = verification_data(&signature, VERIFIER, &message);
    data[0] = 2;
    let r = verify_ed25519_signature(&signature, &message, VERIFIER, &data);
    assert_eq!(r.unwrap_err(), PV3Error::InvalidSignatureCount);
}

#[test]
fn verification_rejects_other_signature() {
    let signature = vec![9u8; 64];
    let message = create_result_message(MATCH_ID, WINNER, &vec![3u8; 32]);
    let other = vec![8u8; 64];
    let data = verification_data(&other, VERIFIER, &message);
    let r = verify_ed25519_signature(&signature, &message, VERIFIER, &data);
    assert_eq!(r.unwrap_err(), PV3Error::SignatureMismatch);
}

#[test]
fn verification_rejects_other_key() {
    let signature = vec![9u8; 64];
    let message = create_result_message(MATCH_ID, WINNER, &vec![3u8; 32]);
    let data = verification_data(&signature, VERIFIER + 1, &message);
    let r = verify_ed25519_signature(&signature, &message, VERIFIER, &data);
    assert_eq!(r.unwrap_err(), PV3Error::PublicKeyMismatch);
}

#[test]
fn verification_rejects_other_message() {
    let signature = vec![9u8; 64];
    let message = create_result_message(MATCH_ID, WINNER, &vec![3u8; 32]);
    let other = create_result_message(MATCH_ID, WINNER, &vec![4u8; 32]);
    let data = verification_data(&signature, VERIFIER, &other);
    let r = verify_ed25519_signature(&signature, &message, VERIFIER, &data);
    assert_eq!(r.unwrap_err(), PV3Error::InvalidSignatureData);
}

#[test]
fn verification_rejects_truncated_message() {
    let signature = vec![9u8; 64];
    let message = create_result_message(MATCH_ID, WINNER, &vec![3u8; 32]);
    let mut data = verification_data(&signature, VERIFIER, &message);
    data.pop();
    let r = verify_ed25519_signature(&signature, &message, VERIFIER, &data);
    assert_eq!(r.unwrap_err(), PV3Error::InvalidSignatureData);
}

#[test]
fn fee_split_rounding_example() {
    // 1_234_567_899 units at 650/550/100 bps: each share rounds down
    // independently, and one unit of the platform fee stays unassigned.
    let split = pv3::fees::split_pot(1_234_567_899, 650, 550, 100);
    assert_eq!(split.platform_fee, 80_246_913);
    assert_eq!(split.treasury_fee, 67_901_234);
    assert_eq!(split.referral_fee, 12_345_678);
    assert_eq!(split.winner_amount, 1_234_567_899 - 80_246_913);
    assert_eq!(split.platform_fee - split.treasury_fee - split.referral_fee, 1);
}

#![allow(non_snake_case)]

use komatta::error::{CryptError, ErrorKind};
use komatta::ops::{deriveKey, exclusiveOR, keyedHash, randomness, IPAD, OPAD};

fn blake3_bytes(input: &[u8], len: usize) -> Vec<u8> {
    let mut out = vec![0u8; len];
    blake3::Hasher::new().update(input).finalize_xof().fill(&mut out);
    out
}

#[test]
fn xor_cycles_the_mask() {
    let fixed = vec![0x01, 0x02, 0x03, 0x04, 0x05];
    let mask = vec![0xff, 0x0f];
    assert_eq!(exclusiveOR(&fixed, &mask), Ok(vec![0xfe, 0x0d, 0xfc, 0x0b, 0xfa]));
}

#[test]
fn xor_cuts_a_longer_mask() {
    let fixed = vec![0xaa, 0x55];
    let mask = vec![0xff, 0xff, 0x12, 0x34];
    assert_eq!(exclusiveOR(&fixed, &mask), Ok(vec![0x55, 0xaa]));
}

#[test]
fn xor_rejects_an_empty_mask() {
    assert_eq!(exclusiveOR(&vec![1, 2, 3], &vec![]), Err(CryptError::EmptyMask));
    assert_eq!(exclusiveOR(&vec![], &vec![]), Err(CryptError::EmptyMask));
    assert_eq!(CryptError::EmptyMask.kind(), ErrorKind::InvalidInput);
}

#[test]
fn xor_of_nothing_is_nothing() {
    assert_eq!(exclusiveOR(&vec![], &vec![7]), Ok(vec![]));
}

#[test]
fn xor_is_its_own_inverse() {
    let fixed: Vec<u8> = (0..=255u8).collect();
    let mask = vec![0x13, 0x37, 0xc0, 0xde, 0x00, 0xff, 0x80];
    let masked = exclusiveOR(&fixed, &mask).unwrap();
    assert_ne!(masked, fixed);
    assert_eq!(exclusiveOR(&masked, &mask), Ok(fixed));
}

#[test]
fn pads_are_the_usual_ones() {
    assert_eq!(IPAD, 0x36);
    assert_eq!(OPAD, 0x5c);
}

#[test]
fn keyed_hash_is_the_nested_construction() {
    let key = vec![0x0b; 20];
    let message = b"Hi There".to_vec();
    let mut inner_input: Vec<u8> = key.iter().map(|b| b ^ 0x36).collect();
    inner_input.extend_from_slice(&message);
    let inner = blake3_bytes(&inner_input, 48);
    let mut outer_input: Vec<u8> = key.iter().map(|b| b ^ 0x5c).collect();
    outer_input.extend_from_slice(&inner);
    let expected = blake3_bytes(&outer_input, 48);
    let hash = keyedHash(&message, &key, Some(48));
    assert_eq!(hash.len(), 48);
    assert_eq!(hash, expected);
    assert_ne!(hash[..8], message[..]);
}

#[test]
fn keyed_hash_known_answer() {
    // An empty key and an empty message: BLAKE3 of the 32 bytes of BLAKE3 of
    // the empty input.
    let empty_digest: [u8; 32] = [
        0xaf, 0x13, 0x49, 0xb9, 0xf5, 0xf9, 0xa1, 0xa6, 0xa0, 0x40, 0x4d, 0xea, 0x36, 0xdc, 0xc9,
        0x49, 0x9b, 0xcb, 0x25, 0xc9, 0xad, 0xc1, 0x12, 0xb7, 0xcc, 0x9a, 0x93, 0xca, 0xe4, 0x1f,
        0x32, 0x62,
    ];
    assert_eq!(blake3_bytes(&[], 32), empty_digest.to_vec());
    let hash = keyedHash(&vec![], &vec![], Some(32));
    assert_eq!(hash, blake3::hash(&empty_digest).as_bytes().to_vec());
}

#[test]
fn keyed_hash_of_three_bytes() {
    assert_eq!(
        keyedHash(&vec![1, 2, 3], &vec![4, 5, 6], Some(16)),
        vec![65, 29, 46, 38, 194, 44, 225, 118, 51, 56, 101, 125, 208, 63, 71, 176]
    );
}

#[test]
fn keyed_hash_defaults_to_the_configured_size() {
    let hash = keyedHash(&vec![1, 2, 3], &vec![4, 5, 6], None);
    assert_eq!(hash.len(), 32);
    assert_eq!(hash, keyedHash(&vec![1, 2, 3], &vec![4, 5, 6], Some(32)));
}

#[test]
fn keyed_hash_can_be_empty_or_long() {
    assert_eq!(keyedHash(&vec![1], &vec![2], Some(0)), Vec::<u8>::new());
    assert_eq!(keyedHash(&vec![1], &vec![2], Some(1000)).len(), 1000);
}

#[test]
fn keyed_hash_depends_on_key_and_message() {
    let a = keyedHash(&vec![1, 2, 3], &vec![9; 16], Some(16));
    assert_eq!(a, keyedHash(&vec![1, 2, 3], &vec![9; 16], Some(16)));
    assert_ne!(a, keyedHash(&vec![1, 2, 4], &vec![9; 16], Some(16)));
    assert_ne!(a, keyedHash(&vec![1, 2, 3], &vec![8; 16], Some(16)));
}

#[test]
fn randomness_has_the_length_asked_for() {
    assert_eq!(randomness(0).len(), 0);
    assert_eq!(randomness(1).len(), 1);
    assert_eq!(randomness(4096).len(), 4096);
}

#[test]
fn randomness_draws_from_all_bytes() {
    let bytes = randomness(60000);
    assert!(bytes.iter().any(|b| *b == u8::MAX));
    assert!(bytes.iter().any(|b| *b == 0));
    assert!(bytes.iter().any(|b| *b != bytes[0]));
    assert_ne!(bytes, randomness(60000));
}

#[test]
fn derive_key_is_argon2id_with_the_default_parameters() {
    let salt = b"saltsalt".to_vec();
    let password = b"a key of 16 byte".to_vec();
    let mut builder = argon2::ParamsBuilder::new();
    builder.output_len(24).unwrap();
    let hasher = argon2::Argon2::new(
        argon2::Algorithm::Argon2id,
        argon2::Version::V0x13,
        builder.params().unwrap(),
    );
    let mut expected = vec![0u8; 24];
    hasher.hash_password_into(&password, &salt, &mut expected).unwrap();
    let derived = deriveKey(&salt, &password, 24).unwrap();
    assert_eq!(derived.len(), 24);
    assert_eq!(derived, expected);
    assert_ne!(derived[..16], password[..]);
}

#[test]
fn derive_key_of_a_short_salt_and_key() {
    assert_eq!(
        deriveKey(&b"saltsalt".to_vec(), &b"a key of 16 byte".to_vec(), 16),
        Ok(vec![155, 212, 186, 74, 102, 125, 4, 185, 31, 168, 157, 236, 153, 14, 122, 247])
    );
}

#[test]
fn derive_key_is_deterministic() {
    let salt = vec![7u8; 16];
    let password = vec![3u8; 32];
    let first = deriveKey(&salt, &password, 32);
    let second = deriveKey(&salt, &password, 32);
    assert!(first.is_ok());
    assert_eq!(first, second);
    assert_ne!(first, deriveKey(&vec![8u8; 16], &password, 32));
}

#[test]
fn derive_key_rejects_what_argon2_rejects() {
    let password = vec![3u8; 16];
    assert_eq!(deriveKey(&vec![1u8; 7], &password, 16), Err(CryptError::Derivation));
    assert_eq!(deriveKey(&vec![1u8; 8], &password, 3), Err(CryptError::Derivation));
    assert_eq!(deriveKey(&vec![], &password, 16), Err(CryptError::Derivation));
    assert!(deriveKey(&vec![1u8; 8], &password, 4).is_ok());
    assert!(deriveKey(&vec![1u8; 8], &vec![], 4).is_ok());
    assert_eq!(CryptError::Derivation.kind(), ErrorKind::Derivation);
}

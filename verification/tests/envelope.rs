#![allow(non_snake_case)]

use komatta::error::{CryptError, ErrorKind};
use komatta::keys::Signing;
use komatta::keys::Keys;
use komatta::ops::keyedHash;
use komatta::target::Target;
use komatta::{Crypt, Integrity};

fn payload(len: usize) -> Vec<u8> {
    (0..len).map(|i| (i * 13 + 5) as u8).collect()
}

fn stored(integrity: &Integrity) -> Vec<u8> {
    match integrity {
        Integrity::Signed(Some(value)) => value.clone(),
        Integrity::Unsigned(Some(value)) => value.clone(),
        _ => panic!("no integrity value is stored"),
    }
}

#[test]
fn tagged_scenario() {
    let keys = Keys::new(Some(16), Some(32), true).unwrap();
    let input = payload(200);
    let mut job = Crypt::new(
        Target::Encrypt,
        keys,
        Some(16),
        Some(64),
        input.clone(),
        Integrity::Unsigned(None),
    );
    assert_eq!(job.iv.len(), 16);
    assert_eq!(job.block_size, 64);
    let cyphered = job.process().unwrap();
    assert_eq!(cyphered.len(), 200);
    assert_ne!(cyphered, input);
    let tag = stored(&job.integrity);
    assert_eq!(tag.len(), 16);

    let mut back = job.clone();
    back.target = Target::Decrypt;
    back.input = cyphered.clone();
    assert_eq!(back.process(), Ok(input.clone()));

    let mut tampered = job.clone();
    tampered.target = Target::Decrypt;
    tampered.input = cyphered.clone();
    tampered.input[17] ^= 0x01;
    assert_eq!(tampered.process(), Err(CryptError::InvalidTag));
    assert_eq!(CryptError::InvalidTag.kind(), ErrorKind::Integrity);
}

#[test]
fn tag_is_the_keyed_hash_of_the_construction() {
    let mut keys = Keys::new(None, None, false).unwrap();
    let sub_key = keys.subKey().unwrap();
    let mut job = Crypt::import(
        Target::Encrypt,
        keys,
        vec![1, 2, 3, 4, 5, 6, 7, 8],
        Some(300),
        payload(10),
        Integrity::Unsigned(None),
    );
    let cyphered = job.process().unwrap();
    let mut construction = vec![0x01, 0x2c, 0x01, 1, 2, 3, 4, 5, 6, 7, 8];
    construction.extend_from_slice(&cyphered);
    assert_eq!(job.construct(cyphered.clone()), construction);
    assert_eq!(stored(&job.integrity), keyedHash(&construction, &sub_key, Some(16)));
    assert_eq!(
        cyphered,
        komatta::cipher::encipher(&sub_key, &vec![1, 2, 3, 4, 5, 6, 7, 8], 300, &payload(10))
            .unwrap()
    );
}

#[test]
fn construction_names_the_kind() {
    let keys = Keys::new(None, None, false).unwrap();
    let job = Crypt::import(
        Target::Encrypt,
        keys,
        vec![9; 8],
        None,
        vec![],
        Integrity::Signed(None),
    );
    assert_eq!(job.construct(vec![0xaa, 0xbb]), vec![0, 64, 0, 9, 9, 9, 9, 9, 9, 9, 9, 0xaa, 0xbb]);
    assert_eq!(job.construct(vec![]), vec![0, 64, 0, 9, 9, 9, 9, 9, 9, 9, 9]);
}

#[test]
fn integrity_kinds_have_their_bytes() {
    assert_eq!(Integrity::Signed(None).kind(), 0);
    assert_eq!(Integrity::Unsigned(Some(vec![1])).kind(), 1);
    assert!(matches!(Integrity::from_kind(0), Some(Integrity::Signed(None))));
    assert!(matches!(Integrity::from_kind(1), Some(Integrity::Unsigned(None))));
    assert!(Integrity::from_kind(2).is_none());
    assert!(Integrity::from_kind(255).is_none());
}

#[test]
fn empty_payload_has_an_empty_ciphertext_and_a_tag() {
    let mut keys = Keys::new(None, None, false).unwrap();
    let sub_key = keys.subKey().unwrap();
    let mut job =
        Crypt::new(Target::Encrypt, keys, None, None, vec![], Integrity::Unsigned(None));
    assert_eq!(job.iv.len(), 8);
    assert_eq!(job.block_size, 64);
    let cyphered = job.process().unwrap();
    assert!(cyphered.is_empty());
    let construction = job.construct(vec![]);
    assert_eq!(construction.len(), 3 + 8);
    assert_eq!(stored(&job.integrity), keyedHash(&construction, &sub_key, Some(16)));
    job.target = Target::Decrypt;
    job.input = cyphered;
    assert_eq!(job.process(), Ok(vec![]));
}

#[test]
fn payload_of_one_block_round_trips() {
    let keys = Keys::new(None, None, false).unwrap();
    let mut job =
        Crypt::new(Target::Encrypt, keys, None, Some(64), payload(64), Integrity::Unsigned(None));
    let cyphered = job.process().unwrap();
    assert_eq!(cyphered.len(), 64);
    job.target = Target::Decrypt;
    job.input = cyphered;
    assert_eq!(job.process(), Ok(payload(64)));
}

#[test]
fn tampered_iv_is_detected() {
    let keys = Keys::new(None, None, false).unwrap();
    let mut job =
        Crypt::new(Target::Encrypt, keys, None, None, payload(100), Integrity::Unsigned(None));
    let cyphered = job.process().unwrap();
    for at in 0..job.iv.len() {
        let mut iv = job.iv.clone();
        iv[at] ^= 0x10;
        let mut tampered = Crypt::import(
            Target::Decrypt,
            job.keys.clone(),
            iv,
            Some(job.block_size),
            cyphered.clone(),
            job.integrity.clone(),
        );
        assert_eq!(tampered.process(), Err(CryptError::InvalidTag));
    }
}

#[test]
fn tampered_tag_is_detected() {
    let keys = Keys::new(None, None, false).unwrap();
    let mut job =
        Crypt::new(Target::Encrypt, keys, None, None, payload(100), Integrity::Unsigned(None));
    let cyphered = job.process().unwrap();
    let tag = stored(&job.integrity);
    for at in 0..tag.len() {
        let mut flipped = tag.clone();
        flipped[at] ^= 0x01;
        let mut tampered = job.clone();
        tampered.target = Target::Decrypt;
        tampered.input = cyphered.clone();
        tampered.integrity = Integrity::Unsigned(Some(flipped));
        assert_eq!(tampered.process(), Err(CryptError::InvalidTag));
    }
    let mut shortened = job.clone();
    shortened.target = Target::Decrypt;
    shortened.input = cyphered;
    shortened.integrity = Integrity::Unsigned(Some(tag[..15].to_vec()));
    assert_eq!(shortened.process(), Err(CryptError::InvalidTag));
}

#[test]
fn tampered_ciphertext_is_detected_at_every_byte() {
    let keys = Keys::new(None, None, false).unwrap();
    let mut job =
        Crypt::new(Target::Encrypt, keys, None, Some(4), payload(20), Integrity::Unsigned(None));
    let cyphered = job.process().unwrap();
    for at in 0..cyphered.len() {
        let mut tampered = job.clone();
        tampered.target = Target::Decrypt;
        tampered.input = cyphered.clone();
        tampered.input[at] ^= 0xff;
        assert_eq!(tampered.process(), Err(CryptError::InvalidTag));
    }
}

#[test]
fn changed_block_size_is_detected() {
    let keys = Keys::new(None, None, false).unwrap();
    let mut job =
        Crypt::new(Target::Encrypt, keys, None, Some(64), payload(100), Integrity::Unsigned(None));
    let cyphered = job.process().unwrap();
    let mut other = Crypt::import(
        Target::Decrypt,
        job.keys.clone(),
        job.iv.clone(),
        Some(65),
        cyphered,
        job.integrity.clone(),
    );
    assert_eq!(other.process(), Err(CryptError::InvalidTag));
}

#[test]
fn signed_round_trip_with_the_public_view() {
    let keys = Keys::new(None, Some(32), true).unwrap();
    let input = payload(333);
    let mut job = Crypt::new(
        Target::Encrypt,
        keys,
        Some(12),
        Some(100),
        input.clone(),
        Integrity::Signed(None),
    );
    let cyphered = job.process().unwrap();
    assert_eq!(cyphered.len(), 333);
    let signature = stored(&job.integrity);
    assert_eq!(signature.len(), Signing::SIGNATURE_BYTES);
    let construction = job.construct(cyphered.clone());
    let verifier = job.keys.signing().unwrap().public().unwrap();
    assert_eq!(verifier.verify(construction, signature), Ok(true));

    job.target = Target::Decrypt;
    job.input = cyphered;
    job.keys = job.keys.public().unwrap();
    assert_eq!(job.process(), Ok(input));
}

#[test]
fn signed_payload_is_not_decrypted_by_the_signer() {
    let keys = Keys::new(None, None, true).unwrap();
    let mut job =
        Crypt::new(Target::Encrypt, keys, None, None, payload(50), Integrity::Signed(None));
    let cyphered = job.process().unwrap();
    job.target = Target::Decrypt;
    job.input = cyphered;
    let failure = job.process().unwrap_err();
    assert_eq!(failure, CryptError::SecretKeyPresent);
    assert_eq!(failure.kind(), ErrorKind::NotAvailable);
}

#[test]
fn tampered_signed_payload_is_detected() {
    let keys = Keys::new(None, None, true).unwrap();
    let mut job =
        Crypt::new(Target::Encrypt, keys, None, None, payload(50), Integrity::Signed(None));
    let cyphered = job.process().unwrap();
    let signature = stored(&job.integrity);
    let public = job.keys.public().unwrap();

    let mut tampered = job.clone();
    tampered.target = Target::Decrypt;
    tampered.keys = public.clone();
    tampered.input = cyphered.clone();
    tampered.input[0] ^= 0x01;
    assert_eq!(tampered.process(), Err(CryptError::InvalidSignature));
    assert_eq!(CryptError::InvalidSignature.kind(), ErrorKind::Integrity);

    let mut flipped = signature.clone();
    flipped[4000] ^= 0x40;
    let mut tampered = job.clone();
    tampered.target = Target::Decrypt;
    tampered.keys = public.clone();
    tampered.input = cyphered.clone();
    tampered.integrity = Integrity::Signed(Some(flipped));
    assert_eq!(tampered.process(), Err(CryptError::InvalidSignature));

    let mut iv = job.iv.clone();
    iv[3] ^= 0x02;
    let mut tampered = Crypt::import(
        Target::Decrypt,
        public,
        iv,
        Some(job.block_size),
        cyphered,
        job.integrity.clone(),
    );
    assert_eq!(tampered.process(), Err(CryptError::InvalidSignature));
}

#[test]
fn a_tag_is_not_taken_for_a_signature() {
    let keys = Keys::new(None, None, true).unwrap();
    let mut job =
        Crypt::new(Target::Encrypt, keys, None, None, payload(50), Integrity::Unsigned(None));
    let cyphered = job.process().unwrap();
    let tag = stored(&job.integrity);
    job.target = Target::Decrypt;
    job.input = cyphered;
    job.keys = job.keys.public().unwrap();
    job.integrity = Integrity::Signed(Some(tag));
    assert_eq!(job.process(), Err(CryptError::InvalidSignature));
}

#[test]
fn signing_needs_a_keypair_with_its_secret() {
    let keys = Keys::new(None, None, false).unwrap();
    let mut job =
        Crypt::new(Target::Encrypt, keys, None, None, payload(50), Integrity::Signed(None));
    assert_eq!(job.process(), Err(CryptError::NoSigningKeys));
    assert!(matches!(job.integrity, Integrity::Signed(None)));

    let keys = Keys::new(None, None, true).unwrap().public().unwrap();
    let mut job =
        Crypt::new(Target::Encrypt, keys, None, None, payload(50), Integrity::Signed(None));
    assert_eq!(job.process(), Err(CryptError::NoSecretKey));
}

#[test]
fn decryption_needs_a_stored_integrity_value() {
    let keys = Keys::new(None, None, true).unwrap();
    let mut job = Crypt::new(
        Target::Decrypt,
        keys.clone(),
        None,
        None,
        payload(50),
        Integrity::Unsigned(None),
    );
    assert_eq!(job.process(), Err(CryptError::NoIntegrity));
    let mut job =
        Crypt::new(Target::Decrypt, keys, None, None, payload(50), Integrity::Signed(None));
    assert_eq!(job.process(), Err(CryptError::NoIntegrity));
    assert_eq!(CryptError::NoIntegrity.kind(), ErrorKind::NotAvailable);
}

#[test]
fn sizes_out_of_policy_are_refused_before_anything_else() {
    let keys = Keys::new(None, None, false).unwrap();
    let mut job = Crypt::new(
        Target::Encrypt,
        keys.clone(),
        None,
        Some(3),
        payload(50),
        Integrity::Unsigned(None),
    );
    assert_eq!(job.process(), Err(CryptError::Constraint { name: "Block Size", value: 3 }));
    assert!(matches!(job.integrity, Integrity::Unsigned(None)));
    let mut job = Crypt::new(
        Target::Encrypt,
        keys.clone(),
        Some(7),
        None,
        payload(50),
        Integrity::Unsigned(None),
    );
    assert_eq!(job.process(), Err(CryptError::Constraint { name: "IV Size", value: 7 }));
    let mut job = Crypt::import(
        Target::Decrypt,
        keys,
        vec![],
        Some(0),
        payload(50),
        Integrity::Unsigned(Some(vec![0; 16])),
    );
    assert_eq!(job.process(), Err(CryptError::Constraint { name: "Block Size", value: 0 }));
    let mut job = Crypt::new(
        Target::Encrypt,
        Keys::default(),
        None,
        None,
        payload(50),
        Integrity::Unsigned(None),
    );
    assert_eq!(job.process(), Err(CryptError::Constraint { name: "Crypt Key Size", value: 0 }));
    let mut job = Crypt::new(
        Target::Encrypt,
        Keys::from_parts(vec![1; 4], vec![2; 16], None),
        None,
        None,
        payload(50),
        Integrity::Unsigned(None),
    );
    assert_eq!(job.process(), Err(CryptError::Derivation));
}

#[test]
fn fresh_jobs_draw_fresh_ivs() {
    let keys = Keys::new(None, None, false).unwrap();
    let a = Crypt::new(
        Target::Encrypt,
        keys.clone(),
        Some(32),
        None,
        vec![],
        Integrity::Unsigned(None),
    );
    let b = Crypt::new(Target::Encrypt, keys, Some(32), None, vec![], Integrity::Unsigned(None));
    assert_eq!(a.iv.len(), 32);
    assert_ne!(a.iv, b.iv);
}

#[test]
fn integrity_converts_into_its_kind_byte() {
    assert_eq!(u8::from(Integrity::Signed(Some(vec![1, 2]))), 0);
    assert_eq!(Into::<u8>::into(Integrity::Unsigned(None)), 1);
}

#[test]
fn keystream_pass_alone_round_trips() {
    let keys = Keys::new(None, None, false).unwrap();
    for len in [0usize, 1, 63, 64, 65, 200] {
        let mut job = Crypt::new(
            Target::Encrypt,
            keys.clone(),
            None,
            Some(64),
            payload(len),
            Integrity::Unsigned(None),
        );
        let cyphered = job.cypher().unwrap();
        assert_eq!(cyphered.len(), len);
        assert!(matches!(job.integrity, Integrity::Unsigned(None)));
        job.target = Target::Decrypt;
        job.input = cyphered;
        assert_eq!(job.cypher(), Ok(payload(len)));
    }
}

#[test]
fn keystream_pass_is_the_one_of_the_whole_job() {
    let keys = Keys::new(None, None, false).unwrap();
    let mut job =
        Crypt::new(Target::Encrypt, keys, None, None, payload(100), Integrity::Unsigned(None));
    let cyphered = job.cypher().unwrap();
    assert_eq!(job.process(), Ok(cyphered));
}

#[test]
fn keystream_pass_checks_the_sizes() {
    let keys = Keys::new(None, None, false).unwrap();
    let mut job = Crypt::new(
        Target::Encrypt,
        keys,
        None,
        Some(0),
        payload(10),
        Integrity::Unsigned(None),
    );
    assert_eq!(job.cypher(), Err(CryptError::Constraint { name: "Block Size", value: 0 }));
    let mut job = Crypt::new(
        Target::Decrypt,
        Keys::default(),
        None,
        None,
        payload(10),
        Integrity::Unsigned(None),
    );
    assert_eq!(job.cypher(), Err(CryptError::Constraint { name: "Crypt Key Size", value: 0 }));
}

//! Known-answer tests for the Ed25519 key derivation and signing the
//! backend performs, against the reference vectors of RFC 8032 (test 1:
//! empty message).

use ed25519_dalek::Verifier;
use safety_rules::crypto::{PrivateKey, PublicKey};
use safety_rules::persistent_safety_storage::PersistentSafetyStorage;
use safety_rules::storage::{RecordName, Storage};
use safety_rules::types::{Author, Waypoint};

const SECRET: [u8; 32] = [
    0x9d, 0x61, 0xb1, 0x9d, 0xef, 0xfd, 0x5a, 0x60,
    0xba, 0x84, 0x4a, 0xf4, 0x92, 0xec, 0x2c, 0xc4,
    0x44, 0x49, 0xc5, 0x69, 0x7b, 0x32, 0x69, 0x19,
    0x70, 0x3b, 0xac, 0x03, 0x1c, 0xae, 0x7f, 0x60,
];

const PUBLIC: [u8; 32] = [
    0xd7, 0x5a, 0x98, 0x01, 0x82, 0xb1, 0x0a, 0xb7,
    0xd5, 0x4b, 0xfe, 0xd3, 0xc9, 0x64, 0x07, 0x3a,
    0x0e, 0xe1, 0x72, 0xf3, 0xda, 0xa6, 0x23, 0x25,
    0xaf, 0x02, 0x1a, 0x68, 0xf7, 0x07, 0x51, 0x1a,
];

const SIGNATURE_OF_EMPTY: [u8; 64] = [
    0xe5, 0x56, 0x43, 0x00, 0xc3, 0x60, 0xac, 0x72,
    0x90, 0x86, 0xe2, 0xcc, 0x80, 0x6e, 0x82, 0x8a,
    0x84, 0x87, 0x7f, 0x1e, 0xb8, 0xe5, 0xd9, 0x74,
    0xd8, 0x73, 0xe0, 0x65, 0x22, 0x49, 0x01, 0x55,
    0x5f, 0xb8, 0x82, 0x15, 0x90, 0xa3, 0x3b, 0xac,
    0xc6, 0x1e, 0x39, 0x70, 0x1c, 0xf9, 0xb4, 0x6b,
    0xd2, 0x5b, 0xf5, 0xf0, 0x59, 0x5b, 0xbe, 0x24,
    0x65, 0x51, 0x41, 0x43, 0x8e, 0x7a, 0x10, 0x0b,
];

fn initialized_with_reference_key() -> PersistentSafetyStorage {
    PersistentSafetyStorage::initialize(
        Storage::new(),
        Author { bytes: [7u8; 32] },
        PrivateKey { bytes: SECRET },
        PrivateKey { bytes: SECRET },
        Waypoint::default(),
        true,
    )
}

#[test]
fn execution_public_key_matches_reference_vector() {
    let mut storage = initialized_with_reference_key();
    let public = storage.execution_public_key().unwrap();
    assert_eq!(public.bytes, PUBLIC);
}

#[test]
fn sign_matches_reference_vector() {
    let storage = initialized_with_reference_key();
    let message: Vec<u8> = Vec::new();
    let signature = storage
        .sign(RecordName::ConsensusKey, PublicKey { bytes: PUBLIC }, &message)
        .unwrap();
    assert_eq!(signature.bytes, SIGNATURE_OF_EMPTY);
}

#[test]
fn signature_verifies_against_public_key() {
    let storage = initialized_with_reference_key();
    let message: Vec<u8> = b"vote proposal payload".to_vec();
    let signature = storage
        .sign(RecordName::ConsensusKey, PublicKey { bytes: PUBLIC }, &message)
        .unwrap();
    let verifying_key = ed25519_dalek::VerifyingKey::from_bytes(&PUBLIC).unwrap();
    let dalek_signature = ed25519_dalek::Signature::from_bytes(&signature.bytes);
    assert!(verifying_key.verify(&message, &dalek_signature).is_ok());
}

#[test]
fn sign_depends_on_message() {
    let storage = initialized_with_reference_key();
    let first: Vec<u8> = b"round 8".to_vec();
    let second: Vec<u8> = b"round 9".to_vec();
    let sig_first = storage
        .sign(RecordName::ConsensusKey, PublicKey { bytes: PUBLIC }, &first)
        .unwrap();
    let sig_second = storage
        .sign(RecordName::ConsensusKey, PublicKey { bytes: PUBLIC }, &second)
        .unwrap();
    assert_ne!(sig_first.bytes.to_vec(), sig_second.bytes.to_vec());
}

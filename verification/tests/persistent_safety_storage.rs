//! Behavioural tests of the persistent safety storage orchestrator: the
//! write-through/invalidate-on-failure cache discipline, the initialization
//! protocol, the accessors and the recorded gauges.

use safety_rules::crypto::{PrivateKey, PublicKey};
use safety_rules::errors::Error;
use safety_rules::persistent_safety_storage::PersistentSafetyStorage;
use safety_rules::storage::{RecordName, Storage, StorageValue};
use safety_rules::types::{Author, SafetyData, Waypoint};

fn test_author() -> Author {
    Author { bytes: [0xaa; 32] }
}

fn consensus_key() -> PrivateKey {
    PrivateKey { bytes: [0x11; 32] }
}

fn execution_key() -> PrivateKey {
    PrivateKey { bytes: [0x22; 32] }
}

fn waypoint_at(version: u64) -> Waypoint {
    Waypoint { version, value: [0x33; 32] }
}

fn initialized(enable_cache: bool) -> PersistentSafetyStorage {
    PersistentSafetyStorage::initialize(
        Storage::new(),
        test_author(),
        consensus_key(),
        execution_key(),
        Waypoint::default(),
        enable_cache,
    )
}

#[test]
fn test_counters() {
    let mut safety_storage = initialized(true);
    test_safety_data_counters(&mut safety_storage);
    test_waypoint_counters(&mut safety_storage);
}

fn test_safety_data_counters(safety_storage: &mut PersistentSafetyStorage) {
    let safety_data = safety_storage.safety_data().unwrap();
    assert_eq!(safety_data.epoch, 1);
    assert_eq!(safety_data.last_voted_round, 0);
    assert_eq!(safety_data.preferred_round, 0);
    assert_eq!(safety_storage.counters().epoch, 1);
    assert_eq!(safety_storage.counters().last_voted_round, 0);
    assert_eq!(safety_storage.counters().preferred_round, 0);

    safety_storage
        .set_safety_data(SafetyData::new(9, 8, 1, 0, None))
        .unwrap();

    let safety_data = safety_storage.safety_data().unwrap();
    assert_eq!(safety_data.epoch, 9);
    assert_eq!(safety_data.last_voted_round, 8);
    assert_eq!(safety_data.preferred_round, 1);
    assert_eq!(safety_storage.counters().epoch, 9);
    assert_eq!(safety_storage.counters().last_voted_round, 8);
    assert_eq!(safety_storage.counters().preferred_round, 1);
}

fn test_waypoint_counters(safety_storage: &mut PersistentSafetyStorage) {
    let waypoint = safety_storage.waypoint().unwrap();
    assert_eq!(waypoint.version(), 0);
    assert_eq!(safety_storage.counters().waypoint_version, 0);

    for expected_version in 1..=10u64 {
        let waypoint = waypoint_at(expected_version);
        safety_storage.set_waypoint(&waypoint).unwrap();

        let waypoint = safety_storage.waypoint().unwrap();
        assert_eq!(waypoint.version(), expected_version);
        assert_eq!(safety_storage.counters().waypoint_version, expected_version);
        assert_eq!(
            safety_storage.counters().waypoint_updates.last().copied(),
            Some(expected_version)
        );
    }
    // One audit record per confirmed update: the one from initialization
    // plus the ten from the loop.
    assert_eq!(safety_storage.counters().waypoint_updates.len(), 11);
}

#[test]
fn set_then_read_returns_written_cached() {
    let mut storage = initialized(true);
    let data = SafetyData::new(4, 3, 2, 1, None);
    storage.set_safety_data(data.clone()).unwrap();
    assert_eq!(storage.safety_data().unwrap(), data);
}

#[test]
fn set_then_read_returns_written_uncached() {
    let mut storage = initialized(false);
    let data = SafetyData::new(4, 3, 2, 1, None);
    storage.set_safety_data(data.clone()).unwrap();
    assert_eq!(storage.safety_data().unwrap(), data);
}

#[test]
fn set_with_vote_record_round_trips() {
    let mut storage = initialized(true);
    let vote: Vec<u8> = b"last vote record".to_vec();
    let data = SafetyData::new(2, 7, 5, 4, Some(vote));
    storage.set_safety_data(data.clone()).unwrap();
    assert_eq!(storage.safety_data().unwrap(), data);
}

#[test]
fn failed_write_invalidates_cache() {
    let mut storage = initialized(true);
    let accepted = SafetyData::new(3, 2, 1, 0, None);
    storage.set_safety_data(accepted.clone()).unwrap();

    storage.internal_store().inject_set_failure();
    let rejected = SafetyData::new(4, 3, 2, 0, None);
    let result = storage.set_safety_data(rejected.clone());
    assert_eq!(result, Err(Error::BackendUnavailable));

    // The next read must not serve the rejected record: it re-consults the
    // backend and returns the record the backend last accepted.
    let read_back = storage.safety_data().unwrap();
    assert_ne!(read_back, rejected);
    assert_eq!(read_back, accepted);
}

#[test]
fn initialize_twice_preserves_state() {
    let mut first = initialized(true);
    let mutated = SafetyData::new(5, 4, 3, 0, None);
    first.set_safety_data(mutated.clone()).unwrap();
    first.set_waypoint(&waypoint_at(6)).unwrap();

    // Re-run initialization against the same backend contents, with the
    // same author and keys: it must succeed without touching anything.
    let backend = first.internal_store().clone();
    let mut second = PersistentSafetyStorage::initialize(
        backend,
        test_author(),
        consensus_key(),
        execution_key(),
        Waypoint::default(),
        true,
    );
    assert_eq!(second.author().unwrap(), test_author());
    assert_eq!(second.safety_data().unwrap(), mutated);
    assert_eq!(second.waypoint().unwrap(), waypoint_at(6));
    assert!(second.execution_public_key().is_ok());
    let version = second
        .internal_store()
        .get_public_key(RecordName::ConsensusKey)
        .unwrap();
    let exported = second.consensus_key_for_version(version).unwrap();
    assert_eq!(exported, consensus_key());
}

#[test]
fn initialize_scenario_populates_all_records() {
    let mut storage = initialized(true);
    let safety_data = storage.safety_data().unwrap();
    assert_eq!(safety_data.epoch, 1);
    assert_eq!(safety_data.last_voted_round, 0);
    assert_eq!(safety_data.preferred_round, 0);
    assert_eq!(safety_data.one_chain_round, 0);
    assert_eq!(safety_data.last_vote, None);
    assert_eq!(storage.waypoint().unwrap(), Waypoint::default());
    assert_eq!(storage.author().unwrap(), test_author());
}

#[test]
fn uncached_read_observes_external_mutation() {
    let mut storage = initialized(false);
    let external = SafetyData::new(8, 7, 6, 0, None);
    // Mutate the backend directly, bypassing the orchestrator.
    storage
        .internal_store()
        .set(RecordName::SafetyData, StorageValue::SafetyData(external.clone()))
        .unwrap();
    assert_eq!(storage.safety_data().unwrap(), external);
}

#[test]
fn empty_store_reads_report_key_not_found() {
    let mut storage = PersistentSafetyStorage::new(Storage::new(), true);
    assert_eq!(storage.safety_data(), Err(Error::KeyNotFound));
    assert_eq!(storage.author(), Err(Error::KeyNotFound));
    assert_eq!(storage.waypoint(), Err(Error::KeyNotFound));
    assert_eq!(storage.execution_public_key(), Err(Error::KeyNotFound));
}

#[test]
fn mismatched_record_kind_reports_serialization_error() {
    let mut storage = PersistentSafetyStorage::new(Storage::new(), false);
    storage
        .internal_store()
        .set(RecordName::SafetyData, StorageValue::Author(test_author()))
        .unwrap();
    assert_eq!(storage.safety_data(), Err(Error::SerializationError));
}

#[test]
fn unknown_key_version_reports_version_not_found() {
    let mut storage = initialized(true);
    let stranger = PublicKey { bytes: [0x44; 32] };
    assert_eq!(
        storage.consensus_key_for_version(stranger),
        Err(Error::VersionNotFound)
    );
    let message: Vec<u8> = b"payload".to_vec();
    assert_eq!(
        storage.sign(RecordName::ConsensusKey, stranger, &message),
        Err(Error::VersionNotFound)
    );
}

#[test]
fn reimport_reports_key_already_exists() {
    let mut backend = Storage::new();
    backend
        .import_private_key(RecordName::ConsensusKey, consensus_key())
        .unwrap();
    assert_eq!(
        backend.import_private_key(RecordName::ConsensusKey, consensus_key()),
        Err(Error::KeyAlreadyExists)
    );
}

#[test]
fn consensus_key_export_round_trips() {
    let mut storage = initialized(true);
    let version = storage
        .internal_store()
        .get_public_key(RecordName::ConsensusKey)
        .unwrap();
    let exported = storage.consensus_key_for_version(version).unwrap();
    assert_eq!(exported, consensus_key());
}

#[test]
fn waypoint_default_is_version_zero() {
    let waypoint = Waypoint::default();
    assert_eq!(waypoint.version(), 0);
    assert_eq!(waypoint.value, [0u8; 32]);
}

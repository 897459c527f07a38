use vstd::prelude::*;

use crate::counters::{counters_zero, same_gauges, Counters, OpKind, TimerSample};
use crate::crypto::{public_key_of, signature_of, PrivateKey, PublicKey, Signature};
use crate::errors::Error;
use crate::storage::{has_version, KeyVersionV, RecordName, Storage, StorageValue, ValueV};
use crate::types::{Author, SafetyData, SafetyDataV, Waypoint, WaypointV};

verus! {

/// The safety record the backend durably holds under the safety-data name,
/// or the error a read of it returns.
pub open spec fn stored_safety_data(store: Storage) -> Result<SafetyDataV, Error> {
    match store.slot(RecordName::SafetyData) {
        Some(ValueV::SafetyData(dv)) => Ok(dv),
        Some(_) => Err(Error::SerializationError),
        None => Err(Error::KeyNotFound),
    }
}

/// The waypoint the backend durably holds, or the error a read returns.
pub open spec fn stored_waypoint(store: Storage) -> Result<WaypointV, Error> {
    match store.slot(RecordName::Waypoint) {
        Some(ValueV::Waypoint(wv)) => Ok(wv),
        Some(_) => Err(Error::SerializationError),
        None => Err(Error::KeyNotFound),
    }
}

/// The author the backend durably holds, or the error a read returns.
pub open spec fn stored_author(store: Storage) -> Result<Seq<u8>, Error> {
    match store.slot(RecordName::OwnerAccount) {
        Some(ValueV::Author(a)) => Ok(a),
        Some(_) => Err(Error::SerializationError),
        None => Err(Error::KeyNotFound),
    }
}

/// A returned safety record, by view.
pub open spec fn sd_result_view(r: Result<SafetyData, Error>) -> Result<SafetyDataV, Error> {
    match r {
        Ok(d) => Ok(d@),
        Err(e) => Err(e),
    }
}

/// A returned waypoint, by view.
pub open spec fn wp_result_view(r: Result<Waypoint, Error>) -> Result<WaypointV, Error> {
    match r {
        Ok(w) => Ok(w@),
        Err(e) => Err(e),
    }
}

/// A returned author, by view.
pub open spec fn author_result_view(r: Result<Author, Error>) -> Result<Seq<u8>, Error> {
    match r {
        Ok(a) => Ok(a@),
        Err(e) => Err(e),
    }
}

/// The safety record every fresh initialization writes: epoch 1, all round
/// counters 0, no last vote.
pub open spec fn default_safety_data() -> SafetyDataV {
    SafetyDataV {
        epoch: 1,
        last_voted_round: 0,
        preferred_round: 0,
        one_chain_round: 0,
        last_vote: None,
    }
}

/// The persistent safety storage orchestrator. It owns a handle to the
/// durable backend and an in-process mirror of the safety record, and keeps
/// the mirror consistent with the backend's committed truth: the cache is
/// filled only from a confirmed write or a successful read, and any write
/// whose success cannot be confirmed resets it to unknown.
///
/// The handle is meant to be exclusively owned; it performs no locking and
/// no retries of its own, and every backend error surfaces to the caller.
pub struct PersistentSafetyStorage {
    pub enable_cached_safety_data: bool,
    pub cached_safety_data: Option<SafetyData>,
    pub internal_store: Storage,
    pub counters: Counters,
}

impl PersistentSafetyStorage {
    /// The in-process cache, by view: `None` is the "unknown" state, which
    /// forces the next read to consult the backend.
    pub open spec fn cache(self) -> Option<SafetyDataV> {
        match self.cached_safety_data {
            Option::None => None,
            Option::Some(d) => Some(d@),
        }
    }

    /// Cache coherence: whenever caching is enabled, a known cache entry
    /// holds exactly the record the backend durably holds. With caching
    /// disabled every read consults the backend, so a stale mirror (for
    /// instance after mutating the backend through `internal_store`) is
    /// harmless and the state counts as well formed.
    pub open spec fn wf(self) -> bool {
        self.enable_cached_safety_data ==> match self.cache() {
            Some(dv) => self.internal_store.slot(RecordName::SafetyData) == Some(
                ValueV::SafetyData(dv),
            ),
            None => true,
        }
    }

    /// What `safety_data` returns, as a function of the state.
    pub open spec fn safety_data_result(self) -> Result<SafetyDataV, Error> {
        if !self.enable_cached_safety_data {
            stored_safety_data(self.internal_store)
        } else {
            match self.cache() {
                Some(dv) => Ok(dv),
                None => stored_safety_data(self.internal_store),
            }
        }
    }

    /// The cache after a `safety_data` call: a successful backend read fills
    /// an unknown cache; otherwise the cache is untouched.
    pub open spec fn cache_after_read(pre: Self) -> Option<SafetyDataV> {
        if pre.enable_cached_safety_data && pre.cache() is None {
            match stored_safety_data(pre.internal_store) {
                Ok(dv) => Some(dv),
                Err(_) => None,
            }
        } else {
            pre.cache()
        }
    }

    /// Nothing but the timer samples of `pre` changed in `post`.
    pub open spec fn state_preserved(pre: Self, post: Self) -> bool {
        &&& post.internal_store == pre.internal_store
        &&& post.cached_safety_data == pre.cached_safety_data
        &&& post.enable_cached_safety_data == pre.enable_cached_safety_data
        &&& same_gauges(post.counters, pre.counters)
        &&& post.counters.waypoint_updates@ == pre.counters.waypoint_updates@
    }

    /// A confirmed safety-data write of `dv` over `pre`: the backend and the
    /// cache both hold `dv`, every other record is untouched, and the gauges
    /// mirror the written counters.
    pub open spec fn set_safety_data_ok_post(pre: Self, dv: SafetyDataV, post: Self) -> bool {
        &&& post.internal_store.slot(RecordName::SafetyData) == Some(ValueV::SafetyData(dv))
        &&& forall|n: RecordName|
            n != RecordName::SafetyData ==> post.internal_store.slot(n)
                == pre.internal_store.slot(n)
        &&& !post.internal_store.fail_next_set
        &&& post.cache() == Some(dv)
        &&& post.enable_cached_safety_data == pre.enable_cached_safety_data
        &&& Self::safety_gauges_written(pre.counters, dv, post.counters)
    }

    /// A rejected safety-data write of `dv` over `pre`: the backend keeps
    /// every record as it was and the cache is reset to unknown, so the next
    /// read must consult the backend.
    pub open spec fn set_safety_data_err_post(pre: Self, dv: SafetyDataV, post: Self) -> bool {
        &&& post.internal_store.same_slots(pre.internal_store)
        &&& !post.internal_store.fail_next_set
        &&& post.cache() is None
        &&& post.enable_cached_safety_data == pre.enable_cached_safety_data
        &&& Self::safety_gauges_written(pre.counters, dv, post.counters)
    }

    /// The gauges after a safety-data write attempt of `dv`: the epoch and
    /// round gauges are exported before the backend is consulted.
    pub open spec fn safety_gauges_written(pre: Counters, dv: SafetyDataV, post: Counters) -> bool {
        &&& post.epoch == dv.epoch
        &&& post.last_voted_round == dv.last_voted_round
        &&& post.preferred_round == dv.preferred_round
        &&& post.waypoint_version == pre.waypoint_version
        &&& post.timer_samples@ == pre.timer_samples@.push(
            TimerSample { op: OpKind::Write, record: RecordName::SafetyData },
        )
        &&& post.waypoint_updates@ == pre.waypoint_updates@
    }

    /// A confirmed waypoint write of `wv` over `pre`: the backend holds `wv`,
    /// every other record and the cache are untouched, the version gauge
    /// mirrors `wv` and one audit record announces the update.
    pub open spec fn set_waypoint_ok_post(pre: Self, wv: WaypointV, post: Self) -> bool {
        &&& post.internal_store.slot(RecordName::Waypoint) == Some(ValueV::Waypoint(wv))
        &&& forall|n: RecordName|
            n != RecordName::Waypoint ==> post.internal_store.slot(n)
                == pre.internal_store.slot(n)
        &&& !post.internal_store.fail_next_set
        &&& post.cached_safety_data == pre.cached_safety_data
        &&& post.enable_cached_safety_data == pre.enable_cached_safety_data
        &&& Self::waypoint_gauges_written(pre.counters, wv, post.counters)
        &&& post.counters.waypoint_updates@ == pre.counters.waypoint_updates@.push(wv.version)
    }

    /// A rejected waypoint write of `wv` over `pre`: the backend keeps every
    /// record, the cache is untouched, and no audit record is emitted; the
    /// version gauge was exported before the backend was consulted.
    pub open spec fn set_waypoint_err_post(pre: Self, wv: WaypointV, post: Self) -> bool {
        &&& post.internal_store.same_slots(pre.internal_store)
        &&& !post.internal_store.fail_next_set
        &&& post.cached_safety_data == pre.cached_safety_data
        &&& post.enable_cached_safety_data == pre.enable_cached_safety_data
        &&& Self::waypoint_gauges_written(pre.counters, wv, post.counters)
        &&& post.counters.waypoint_updates@ == pre.counters.waypoint_updates@
    }

    /// The gauges after a waypoint write attempt of `wv`.
    pub open spec fn waypoint_gauges_written(pre: Counters, wv: WaypointV, post: Counters) -> bool {
        &&& post.waypoint_version == wv.version
        &&& post.epoch == pre.epoch
        &&& post.last_voted_round == pre.last_voted_round
        &&& post.preferred_round == pre.preferred_round
        &&& post.timer_samples@ == pre.timer_samples@.push(
            TimerSample { op: OpKind::Write, record: RecordName::Waypoint },
        )
    }

    /// A store found already initialized: every record it held is untouched
    /// and the fresh handle starts with an unknown cache.
    pub open spec fn initialize_pre_existing_post(store: Storage, r: Self) -> bool {
        &&& r.internal_store.same_slots(store)
        &&& r.internal_store.fail_next_set == store.fail_next_set
        &&& r.cache() is None
        &&& counters_zero(r.counters)
    }

    /// A store initialized from scratch: both keys imported as their first
    /// versions, the author written, the default safety record and the given
    /// waypoint durably stored, and the cache warm with the fresh record.
    pub open spec fn initialize_fresh_post(
        store: Storage,
        author: Seq<u8>,
        consensus_secret: Seq<u8>,
        execution_secret: Seq<u8>,
        wv: WaypointV,
        r: Self,
    ) -> bool {
        &&& r.internal_store.slot(RecordName::ConsensusKey) == Some(
            ValueV::Keys(
                seq![
                    KeyVersionV {
                        private: consensus_secret,
                        public: public_key_of(consensus_secret),
                    },
                ],
            ),
        )
        &&& r.internal_store.slot(RecordName::ExecutionKey) == Some(
            ValueV::Keys(
                seq![
                    KeyVersionV {
                        private: execution_secret,
                        public: public_key_of(execution_secret),
                    },
                ],
            ),
        )
        &&& r.internal_store.slot(RecordName::OwnerAccount) == Some(ValueV::Author(author))
        &&& r.internal_store.slot(RecordName::SafetyData) == Some(
            ValueV::SafetyData(default_safety_data()),
        )
        &&& r.internal_store.slot(RecordName::Waypoint) == Some(ValueV::Waypoint(wv))
        &&& !r.internal_store.fail_next_set
        &&& r.cache() == Some(default_safety_data())
        &&& r.counters.epoch == 1
        &&& r.counters.last_voted_round == 0
        &&& r.counters.preferred_round == 0
        &&& r.counters.waypoint_version == wv.version
        &&& r.counters.waypoint_updates@ == seq![wv.version]
    }

    /// Set up a store for a node that has no safety values yet: import both
    /// keys, write the author, a default safety record (epoch 1, rounds 0,
    /// no vote) and the given waypoint, in that order. A backend that
    /// already holds a consensus key is treated as pre-initialized: nothing
    /// is touched and the handle starts with an unknown cache, so reads go
    /// to the backend. A store with no consensus key must accept every step,
    /// so no failure may be armed and no stray execution key may be present.
    pub fn initialize(
        internal_store: Storage,
        author: Author,
        consensus_private_key: PrivateKey,
        execution_private_key: PrivateKey,
        waypoint: Waypoint,
        enable_cached_safety_data: bool,
    ) -> (r: Self)
        requires
            internal_store.slot(RecordName::ConsensusKey) is None ==> {
                &&& internal_store.slot(RecordName::ExecutionKey) is None
                &&& !internal_store.fail_next_set
            },
        ensures
            r.enable_cached_safety_data == enable_cached_safety_data,
            r.wf(),
            internal_store.slot(RecordName::ConsensusKey) is Some
                ==> Self::initialize_pre_existing_post(internal_store, r),
            internal_store.slot(RecordName::ConsensusKey) is None
                ==> Self::initialize_fresh_post(
                internal_store,
                author@,
                consensus_private_key@,
                execution_private_key@,
                waypoint@,
                r,
            ),
    {
        let mut store = internal_store;
        let outcome = Self::initialize_keys_and_accounts(
            &mut store,
            author,
            consensus_private_key,
            execution_private_key,
        );
        let mut storage = Self {
            enable_cached_safety_data,
            cached_safety_data: None,
            internal_store: store,
            counters: Counters::new(),
        };
        match outcome {
            KeyImportOutcome::AlreadyInitialized => storage,
            KeyImportOutcome::Fresh => {
                let safety_data = SafetyData::new(1, 0, 0, 0, None);
                let written = storage.set_safety_data(safety_data);
                proof {
                    assert(written is Ok);
                }
                let waypoint_written = storage.set_waypoint(&waypoint);
                proof {
                    assert(waypoint_written is Ok);
                }
                storage
            }
        }
    }

    /// Import the consensus key, then the execution key, then write the
    /// author. A consensus key that already exists marks the whole store as
    /// pre-initialized and leaves every record untouched.
    fn initialize_keys_and_accounts(
        internal_store: &mut Storage,
        author: Author,
        consensus_private_key: PrivateKey,
        execution_private_key: PrivateKey,
    ) -> (r: KeyImportOutcome)
        requires
            old(internal_store).slot(RecordName::ConsensusKey) is None ==> {
                &&& old(internal_store).slot(RecordName::ExecutionKey) is None
                &&& !old(internal_store).fail_next_set
            },
        ensures
            final(internal_store).fail_next_set == old(internal_store).fail_next_set,
            old(internal_store).slot(RecordName::ConsensusKey) is Some ==> {
                &&& r == KeyImportOutcome::AlreadyInitialized
                &&& final(internal_store).same_slots(*old(internal_store))
            },
            old(internal_store).slot(RecordName::ConsensusKey) is None ==> {
                &&& r == KeyImportOutcome::Fresh
                &&& final(internal_store).slot(RecordName::ConsensusKey) == Some(
                    ValueV::Keys(
                        seq![
                            KeyVersionV {
                                private: consensus_private_key@,
                                public: public_key_of(consensus_private_key@),
                            },
                        ],
                    ),
                )
                &&& final(internal_store).slot(RecordName::ExecutionKey) == Some(
                    ValueV::Keys(
                        seq![
                            KeyVersionV {
                                private: execution_private_key@,
                                public: public_key_of(execution_private_key@),
                            },
                        ],
                    ),
                )
                &&& final(internal_store).slot(RecordName::OwnerAccount) == Some(
                    ValueV::Author(author@),
                )
                &&& final(internal_store).slot(RecordName::SafetyData) == old(
                    internal_store,
                ).slot(RecordName::SafetyData)
                &&& final(internal_store).slot(RecordName::Waypoint) == old(
                    internal_store,
                ).slot(RecordName::Waypoint)
            },
    {
        let imported = internal_store.import_private_key(
            RecordName::ConsensusKey,
            consensus_private_key,
        );
        if let Err(Error::KeyAlreadyExists) = imported {
            return KeyImportOutcome::AlreadyInitialized;
        }
        let execution_imported = internal_store.import_private_key(
            RecordName::ExecutionKey,
            execution_private_key,
        );
        proof {
            assert(execution_imported is Ok);
        }
        let author_written = internal_store.set(
            RecordName::OwnerAccount,
            StorageValue::Author(author),
        );
        proof {
            assert(author_written is Ok);
        }
        KeyImportOutcome::Fresh
    }

    /// Wrap an existing, already initialized data store. The cache starts
    /// unknown, so the first read consults the backend.
    pub fn new(internal_store: Storage, enable_cached_safety_data: bool) -> (r: Self)
        ensures
            r.enable_cached_safety_data == enable_cached_safety_data,
            r.cache() is None,
            r.internal_store == internal_store,
            counters_zero(r.counters),
            r.wf(),
    {
        Self {
            enable_cached_safety_data,
            cached_safety_data: None,
            internal_store,
            counters: Counters::new(),
        }
    }

    /// The author identity, read through to the backend on every call:
    /// identity never changes after initialization, so no cache is kept.
    pub fn author(&mut self) -> (r: Result<Author, Error>)
        requires
            old(self).wf(),
        ensures
            author_result_view(r) == stored_author(old(self).internal_store),
            Self::state_preserved(*old(self), *final(self)),
            final(self).counters.timer_samples@ == old(self).counters.timer_samples@.push(
                TimerSample { op: OpKind::Read, record: RecordName::OwnerAccount },
            ),
            final(self).wf(),
    {
        self.counters.timer_samples.push(
            TimerSample { op: OpKind::Read, record: RecordName::OwnerAccount },
        );
        match self.internal_store.get(RecordName::OwnerAccount) {
            Ok(StorageValue::Author(a)) => Ok(a),
            Ok(_) => Err(Error::SerializationError),
            Err(e) => Err(e),
        }
    }

    /// Export the consensus private key whose version carries the given
    /// public key; fails with `VersionNotFound` if no version matches.
    pub fn consensus_key_for_version(&mut self, version: PublicKey) -> (r: Result<
        PrivateKey,
        Error,
    >)
        requires
            old(self).wf(),
        ensures
            match old(self).internal_store.slot(RecordName::ConsensusKey) {
                Some(ValueV::Keys(keys)) => if has_version(keys, version@) {
                    r matches Ok(sk) && exists|i: int|
                        0 <= i < keys.len() && keys[i].public == version@ && keys[i].private
                            == sk@
                } else {
                    r == Err::<PrivateKey, Error>(Error::VersionNotFound)
                },
                Some(_) => r == Err::<PrivateKey, Error>(Error::SerializationError),
                None => r == Err::<PrivateKey, Error>(Error::KeyNotFound),
            },
            Self::state_preserved(*old(self), *final(self)),
            final(self).counters.timer_samples@ == old(self).counters.timer_samples@.push(
                TimerSample { op: OpKind::Read, record: RecordName::ConsensusKey },
            ),
            final(self).wf(),
    {
        self.counters.timer_samples.push(
            TimerSample { op: OpKind::Read, record: RecordName::ConsensusKey },
        );
        self.internal_store.export_private_key_for_version(RecordName::ConsensusKey, &version)
    }

    /// The public key of the current execution key version, read through to
    /// the backend.
    pub fn execution_public_key(&mut self) -> (r: Result<PublicKey, Error>)
        requires
            old(self).wf(),
        ensures
            match old(self).internal_store.slot(RecordName::ExecutionKey) {
                Some(ValueV::Keys(keys)) => if keys.len() > 0 {
                    r matches Ok(pk) && pk@ == keys.last().public
                } else {
                    r == Err::<PublicKey, Error>(Error::VersionNotFound)
                },
                Some(_) => r == Err::<PublicKey, Error>(Error::SerializationError),
                None => r == Err::<PublicKey, Error>(Error::KeyNotFound),
            },
            Self::state_preserved(*old(self), *final(self)),
            final(self).counters.timer_samples@ == old(self).counters.timer_samples@.push(
                TimerSample { op: OpKind::Read, record: RecordName::ExecutionKey },
            ),
            final(self).wf(),
    {
        self.counters.timer_samples.push(
            TimerSample { op: OpKind::Read, record: RecordName::ExecutionKey },
        );
        self.internal_store.get_public_key(RecordName::ExecutionKey)
    }

    /// Sign `message` with the key version under `key_name` identified by
    /// `key_version`: pure delegation to the backend, with no state change
    /// and no caching.
    pub fn sign(&self, key_name: RecordName, key_version: PublicKey, message: &[u8]) -> (r: Result<
        Signature,
        Error,
    >)
        requires
            self.wf(),
        ensures
            match self.internal_store.slot(key_name) {
                Some(ValueV::Keys(keys)) => if has_version(keys, key_version@) {
                    r matches Ok(sig) && exists|i: int|
                        0 <= i < keys.len() && keys[i].public == key_version@ && sig@
                            == signature_of(keys[i].private, message@)
                } else {
                    r == Err::<Signature, Error>(Error::VersionNotFound)
                },
                Some(_) => r == Err::<Signature, Error>(Error::SerializationError),
                None => r == Err::<Signature, Error>(Error::KeyNotFound),
            },
    {
        self.internal_store.sign_using_version(key_name, &key_version, message)
    }

    /// The current safety record. With caching disabled every call reads the
    /// backend; with caching enabled a known cache entry is served directly
    /// and an unknown cache is filled from the backend. Either way, a
    /// returned record is one the backend durably holds.
    pub fn safety_data(&mut self) -> (r: Result<SafetyData, Error>)
        requires
            old(self).wf(),
        ensures
            sd_result_view(r) == old(self).safety_data_result(),
            r matches Ok(d) ==> old(self).internal_store.slot(RecordName::SafetyData) == Some(
                ValueV::SafetyData(d@),
            ),
            final(self).internal_store == old(self).internal_store,
            final(self).enable_cached_safety_data == old(self).enable_cached_safety_data,
            final(self).cache() == Self::cache_after_read(*old(self)),
            final(self).counters.timer_samples@ == (if old(self).enable_cached_safety_data && old(
                self,
            ).cache() is Some {
                old(self).counters.timer_samples@
            } else {
                old(self).counters.timer_samples@.push(
                    TimerSample { op: OpKind::Read, record: RecordName::SafetyData },
                )
            }),
            same_gauges(final(self).counters, old(self).counters),
            final(self).counters.waypoint_updates@ == old(self).counters.waypoint_updates@,
            final(self).wf(),
    {
        if !self.enable_cached_safety_data {
            self.counters.timer_samples.push(
                TimerSample { op: OpKind::Read, record: RecordName::SafetyData },
            );
            return match self.internal_store.get(RecordName::SafetyData) {
                Ok(StorageValue::SafetyData(d)) => Ok(d),
                Ok(_) => Err(Error::SerializationError),
                Err(e) => Err(e),
            };
        }
        let cached = match &self.cached_safety_data {
            Some(d) => Some(d.duplicate()),
            None => None,
        };
        match cached {
            Some(d) => Ok(d),
            None => {
                self.counters.timer_samples.push(
                    TimerSample { op: OpKind::Read, record: RecordName::SafetyData },
                );
                match self.internal_store.get(RecordName::SafetyData) {
                    Ok(StorageValue::SafetyData(d)) => {
                        self.cached_safety_data = Some(d.duplicate());
                        Ok(d)
                    }
                    Ok(_) => Err(Error::SerializationError),
                    Err(e) => Err(e),
                }
            }
        }
    }

    /// Write a whole safety record through to the backend. On success the
    /// cache holds exactly the written record; on failure the cache is reset
    /// to unknown — never left holding the pre-write value or the attempted
    /// one — and the error is propagated. The epoch and round gauges are
    /// exported before the backend is consulted.
    pub fn set_safety_data(&mut self, data: SafetyData) -> (r: Result<(), Error>)
        ensures
            !old(self).internal_store.fail_next_set ==> r == Ok::<(), Error>(())
                && Self::set_safety_data_ok_post(*old(self), data@, *final(self)),
            old(self).internal_store.fail_next_set ==> r == Err::<(), Error>(
                Error::BackendUnavailable,
            ) && Self::set_safety_data_err_post(*old(self), data@, *final(self)),
            final(self).wf(),
    {
        self.counters.timer_samples.push(
            TimerSample { op: OpKind::Write, record: RecordName::SafetyData },
        );
        self.counters.epoch = data.epoch;
        self.counters.last_voted_round = data.last_voted_round;
        self.counters.preferred_round = data.preferred_round;
        let mirror = data.duplicate();
        match self.internal_store.set(RecordName::SafetyData, StorageValue::SafetyData(data)) {
            Ok(_) => {
                self.cached_safety_data = Some(mirror);
                Ok(())
            }
            Err(e) => {
                self.cached_safety_data = None;
                Err(e)
            }
        }
    }

    /// The current waypoint, read through to the backend on every call:
    /// waypoint changes are rare and externally cross-checked, so no cache
    /// is kept.
    pub fn waypoint(&mut self) -> (r: Result<Waypoint, Error>)
        requires
            old(self).wf(),
        ensures
            wp_result_view(r) == stored_waypoint(old(self).internal_store),
            Self::state_preserved(*old(self), *final(self)),
            final(self).counters.timer_samples@ == old(self).counters.timer_samples@.push(
                TimerSample { op: OpKind::Read, record: RecordName::Waypoint },
            ),
            final(self).wf(),
    {
        self.counters.timer_samples.push(
            TimerSample { op: OpKind::Read, record: RecordName::Waypoint },
        );
        match self.internal_store.get(RecordName::Waypoint) {
            Ok(StorageValue::Waypoint(w)) => Ok(w),
            Ok(_) => Err(Error::SerializationError),
            Err(e) => Err(e),
        }
    }

    /// Write a waypoint through to the backend. The version gauge is
    /// exported before the write; one audit record announcing the new
    /// version is emitted only on success. Failures propagate and leave
    /// every stored record as it was.
    pub fn set_waypoint(&mut self, waypoint: &Waypoint) -> (r: Result<(), Error>)
        requires
            old(self).wf(),
        ensures
            !old(self).internal_store.fail_next_set ==> r == Ok::<(), Error>(())
                && Self::set_waypoint_ok_post(*old(self), waypoint@, *final(self)),
            old(self).internal_store.fail_next_set ==> r == Err::<(), Error>(
                Error::BackendUnavailable,
            ) && Self::set_waypoint_err_post(*old(self), waypoint@, *final(self)),
            final(self).wf(),
    {
        self.counters.timer_samples.push(
            TimerSample { op: OpKind::Write, record: RecordName::Waypoint },
        );
        self.counters.waypoint_version = waypoint.version;
        match self.internal_store.set(RecordName::Waypoint, StorageValue::Waypoint(*waypoint)) {
            Ok(_) => {
                self.counters.waypoint_updates.push(waypoint.version);
                Ok(())
            }
            Err(e) => Err(e),
        }
    }

    /// Direct access to the backend handle, for tests and tooling that
    /// inspect or mutate the store out of band. Mutating the safety-data
    /// record through this handle while caching is enabled can leave a known
    /// cache entry stale, in which case `wf` no longer holds; with caching
    /// disabled every read consults the backend and out-of-band changes are
    /// observed.
    pub fn internal_store(&mut self) -> (r: &mut Storage)
        ensures
            *r == old(self).internal_store,
            final(self).internal_store == *final(r),
            final(self).cached_safety_data == old(self).cached_safety_data,
            final(self).enable_cached_safety_data == old(self).enable_cached_safety_data,
            final(self).counters == old(self).counters,
    {
        &mut self.internal_store
    }

    /// The recorded gauges, timer samples and audit records.
    pub fn counters(&self) -> (r: &Counters)
        ensures
            *r == self.counters,
    {
        &self.counters
    }
}

/// What the first key import found: a fresh store, or one that already held
/// a consensus key.
enum KeyImportOutcome {
    Fresh,
    AlreadyInitialized,
}

/// In a well-formed state the record `safety_data` is specified to return is
/// exactly the record the backend durably holds: the cache can never serve a
/// value the backend did not accept, with caching enabled or disabled.
pub proof fn lemma_read_reflects_backend(s: PersistentSafetyStorage)
    requires
        s.wf(),
    ensures
        s.safety_data_result() == stored_safety_data(s.internal_store),
{
}

/// A confirmed write is read back: after `set_safety_data` succeeds with
/// record `dv`, the next `safety_data` returns exactly `dv`, with caching
/// enabled or disabled.
pub proof fn lemma_confirmed_write_is_read_back(
    pre: PersistentSafetyStorage,
    dv: SafetyDataV,
    post: PersistentSafetyStorage,
)
    requires
        PersistentSafetyStorage::set_safety_data_ok_post(pre, dv, post),
    ensures
        post.safety_data_result() == Ok::<SafetyDataV, Error>(dv),
{
}

/// A failed write invalidates the cache: after `set_safety_data` is rejected
/// with record `dv`, the next `safety_data` consults the backend and returns
/// the record it last accepted; `dv` itself is not returned unless it was
/// already the stored record.
pub proof fn lemma_failed_write_reads_backend(
    pre: PersistentSafetyStorage,
    dv: SafetyDataV,
    post: PersistentSafetyStorage,
)
    requires
        PersistentSafetyStorage::set_safety_data_err_post(pre, dv, post),
    ensures
        post.safety_data_result() == stored_safety_data(pre.internal_store),
        stored_safety_data(pre.internal_store) != Ok::<SafetyDataV, Error>(dv)
            ==> post.safety_data_result() != Ok::<SafetyDataV, Error>(dv),
{
    assert(post.internal_store.slot(RecordName::SafetyData) == pre.internal_store.slot(
        RecordName::SafetyData,
    ));
}

/// Initialization is idempotent: a store freshly initialized holds a
/// consensus key, so a second `initialize` against it takes the
/// pre-initialized path and leaves the first call's keys, author, safety
/// record and waypoint untouched.
pub proof fn lemma_initialize_twice_is_safe(
    store0: Storage,
    author: Seq<u8>,
    consensus_secret: Seq<u8>,
    execution_secret: Seq<u8>,
    wv: WaypointV,
    first: PersistentSafetyStorage,
    second: PersistentSafetyStorage,
)
    requires
        PersistentSafetyStorage::initialize_fresh_post(
            store0,
            author,
            consensus_secret,
            execution_secret,
            wv,
            first,
        ),
        PersistentSafetyStorage::initialize_pre_existing_post(first.internal_store, second),
    ensures
        first.internal_store.slot(RecordName::ConsensusKey) is Some,
        second.internal_store.slot(RecordName::ConsensusKey) == first.internal_store.slot(
            RecordName::ConsensusKey,
        ),
        second.internal_store.slot(RecordName::ExecutionKey) == first.internal_store.slot(
            RecordName::ExecutionKey,
        ),
        second.internal_store.slot(RecordName::OwnerAccount) == Some(ValueV::Author(author)),
        second.internal_store.slot(RecordName::SafetyData) == Some(
            ValueV::SafetyData(default_safety_data()),
        ),
        second.internal_store.slot(RecordName::Waypoint) == Some(ValueV::Waypoint(wv)),
{
    assert(second.internal_store.slot(RecordName::OwnerAccount) == first.internal_store.slot(
        RecordName::OwnerAccount,
    ));
    assert(second.internal_store.slot(RecordName::SafetyData) == first.internal_store.slot(
        RecordName::SafetyData,
    ));
    assert(second.internal_store.slot(RecordName::Waypoint) == first.internal_store.slot(
        RecordName::Waypoint,
    ));
}

/// A confirmed waypoint write is read back, and the version gauge reflects
/// it: after `set_waypoint` succeeds with waypoint `wv`, the next `waypoint`
/// call returns exactly `wv` and the gauge holds its version.
pub proof fn lemma_waypoint_write_is_read_back(
    pre: PersistentSafetyStorage,
    wv: WaypointV,
    post: PersistentSafetyStorage,
)
    requires
        PersistentSafetyStorage::set_waypoint_ok_post(pre, wv, post),
    ensures
        stored_waypoint(post.internal_store) == Ok::<WaypointV, Error>(wv),
        post.counters.waypoint_version == wv.version,
{
}

} // verus!

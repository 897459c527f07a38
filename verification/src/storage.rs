use vstd::prelude::*;

use crate::crypto::{bytes32_eq, derive_public_key, public_key_of, sign_message, signature_of};
use crate::crypto::{PrivateKey, PublicKey, Signature};
use crate::errors::Error;
use crate::types::{Author, SafetyData, SafetyDataV, Waypoint, WaypointV};

verus! {

/// The five fixed record names under which this layer persists its state.
/// The backend is keyed by these names and treats every value as opaque.
#[derive(Clone, Copy, Debug, PartialEq, Eq, Structural)]
pub enum RecordName {
    ConsensusKey,
    ExecutionKey,
    OwnerAccount,
    SafetyData,
    Waypoint,
}

/// One version of a named key: the private key together with the public key
/// that identifies the version. Several versions may coexist under one name
/// to support rotation.
#[derive(Clone, Copy, Debug)]
pub struct KeyVersion {
    pub private: PrivateKey,
    pub public: PublicKey,
}

/// The mathematical shape of a key version.
#[verifier::ext_equal]
pub ghost struct KeyVersionV {
    pub private: Seq<u8>,
    pub public: Seq<u8>,
}

impl View for KeyVersion {
    type V = KeyVersionV;

    open spec fn view(&self) -> KeyVersionV {
        KeyVersionV { private: self.private@, public: self.public@ }
    }
}

/// A value as the backend stores it. The backend is a plain name-to-value
/// store and does not interpret what it holds; readers check the kind.
#[derive(Clone, Debug)]
pub enum StorageValue {
    Author(Author),
    SafetyData(SafetyData),
    Waypoint(Waypoint),
    Keys(Vec<KeyVersion>),
}

/// The mathematical shape of a stored value.
#[verifier::ext_equal]
pub ghost enum ValueV {
    Author(Seq<u8>),
    SafetyData(SafetyDataV),
    Waypoint(WaypointV),
    Keys(Seq<KeyVersionV>),
}

/// The views of a sequence of key versions.
pub open spec fn keys_view(keys: Seq<KeyVersion>) -> Seq<KeyVersionV> {
    keys.map_values(|k: KeyVersion| k@)
}

impl View for StorageValue {
    type V = ValueV;

    open spec fn view(&self) -> ValueV {
        match self {
            StorageValue::Author(a) => ValueV::Author(a@),
            StorageValue::SafetyData(d) => ValueV::SafetyData(d@),
            StorageValue::Waypoint(w) => ValueV::Waypoint(w@),
            StorageValue::Keys(keys) => ValueV::Keys(keys_view(keys@)),
        }
    }
}

impl StorageValue {
    /// A copy of this value with the same view.
    pub fn duplicate(&self) -> (r: Self)
        ensures
            r@ == self@,
    {
        match self {
            StorageValue::Author(a) => StorageValue::Author(*a),
            StorageValue::SafetyData(d) => StorageValue::SafetyData(d.duplicate()),
            StorageValue::Waypoint(w) => StorageValue::Waypoint(*w),
            StorageValue::Keys(keys) => StorageValue::Keys(copy_key_versions(keys)),
        }
    }
}

/// A fresh vector holding the same key versions.
fn copy_key_versions(keys: &Vec<KeyVersion>) -> (r: Vec<KeyVersion>)
    ensures
        r@ == keys@,
{
    let mut r: Vec<KeyVersion> = Vec::new();
    let mut i: usize = 0;
    while i < keys.len()
        invariant
            0 <= i <= keys.len(),
            r@ == keys@.subrange(0, i as int),
        decreases keys.len() - i,
    {
        r.push(keys[i]);
        proof {
            assert(r@ =~= keys@.subrange(0, i + 1));
        }
        i = i + 1;
    }
    proof {
        assert(r@ =~= keys@);
    }
    r
}

/// The view of an occupied or empty slot.
pub open spec fn slot_view(slot: Option<StorageValue>) -> Option<ValueV> {
    match slot {
        Option::None => None,
        Option::Some(v) => Some(v@),
    }
}

/// Some key version in `keys` carries the given public key.
pub open spec fn has_version(keys: Seq<KeyVersionV>, public: Seq<u8>) -> bool {
    exists|i: int| 0 <= i < keys.len() && keys[i].public == public
}

/// The in-memory realization of the secure-backend capability: one slot per
/// record name, plus a hook that makes the next write fail, for exercising
/// the orchestrator's invalidate-on-failure discipline. Any durable backend
/// satisfying the same contracts can stand behind the orchestrator.
#[derive(Clone, Debug)]
pub struct Storage {
    pub consensus_key: Option<StorageValue>,
    pub execution_key: Option<StorageValue>,
    pub owner_account: Option<StorageValue>,
    pub safety_data: Option<StorageValue>,
    pub waypoint: Option<StorageValue>,
    /// When set, the next `set` call fails and clears the flag, leaving the
    /// slots untouched — a simulated transport or engine failure.
    pub fail_next_set: bool,
}

impl Storage {
    /// What the backend durably holds under `name`.
    pub open spec fn slot(self, name: RecordName) -> Option<ValueV> {
        match name {
            RecordName::ConsensusKey => slot_view(self.consensus_key),
            RecordName::ExecutionKey => slot_view(self.execution_key),
            RecordName::OwnerAccount => slot_view(self.owner_account),
            RecordName::SafetyData => slot_view(self.safety_data),
            RecordName::Waypoint => slot_view(self.waypoint),
        }
    }

    /// Every record of `self` agrees with the one `other` holds.
    pub open spec fn same_slots(self, other: Storage) -> bool {
        forall|n: RecordName| self.slot(n) == other.slot(n)
    }

    /// An empty backend with no failure armed.
    pub fn new() -> (r: Self)
        ensures
            forall|n: RecordName| r.slot(n) is None,
            !r.fail_next_set,
    {
        Storage {
            consensus_key: None,
            execution_key: None,
            owner_account: None,
            safety_data: None,
            waypoint: None,
            fail_next_set: false,
        }
    }

    /// Arm the simulated backend failure: the next `set` fails, leaving the
    /// slots untouched.
    pub fn inject_set_failure(&mut self)
        ensures
            final(self).fail_next_set,
            final(self).same_slots(*old(self)),
    {
        self.fail_next_set = true;
    }

    /// Read the value stored under `name`.
    pub fn get(&self, name: RecordName) -> (r: Result<StorageValue, Error>)
        ensures
            match self.slot(name) {
                Some(v) => r matches Ok(rv) && rv@ == v,
                None => r == Err::<StorageValue, Error>(Error::KeyNotFound),
            },
    {
        let slot = match name {
            RecordName::ConsensusKey => &self.consensus_key,
            RecordName::ExecutionKey => &self.execution_key,
            RecordName::OwnerAccount => &self.owner_account,
            RecordName::SafetyData => &self.safety_data,
            RecordName::Waypoint => &self.waypoint,
        };
        match slot {
            Some(v) => Ok(v.duplicate()),
            None => Err(Error::KeyNotFound),
        }
    }

    /// Write `value` under `name`, synchronously. On success the slot holds
    /// exactly `value`; a failing write leaves every slot as it was.
    pub fn set(&mut self, name: RecordName, value: StorageValue) -> (r: Result<(), Error>)
        ensures
            old(self).fail_next_set ==> {
                &&& r == Err::<(), Error>(Error::BackendUnavailable)
                &&& final(self).same_slots(*old(self))
                &&& !final(self).fail_next_set
            },
            !old(self).fail_next_set ==> {
                &&& r == Ok::<(), Error>(())
                &&& final(self).slot(name) == Some(value@)
                &&& forall|n: RecordName| n != name ==> final(self).slot(n) == old(self).slot(n)
                &&& !final(self).fail_next_set
            },
    {
        if self.fail_next_set {
            self.fail_next_set = false;
            return Err(Error::BackendUnavailable);
        }
        match name {
            RecordName::ConsensusKey => {
                self.consensus_key = Some(value);
            }
            RecordName::ExecutionKey => {
                self.execution_key = Some(value);
            }
            RecordName::OwnerAccount => {
                self.owner_account = Some(value);
            }
            RecordName::SafetyData => {
                self.safety_data = Some(value);
            }
            RecordName::Waypoint => {
                self.waypoint = Some(value);
            }
        }
        Ok(())
    }

    /// Import a private key under `name` as its first version. A name that
    /// already holds a value reports `KeyAlreadyExists` and changes nothing.
    pub fn import_private_key(&mut self, name: RecordName, key: PrivateKey) -> (r: Result<
        (),
        Error,
    >)
        ensures
            old(self).slot(name) is Some ==> {
                &&& r == Err::<(), Error>(Error::KeyAlreadyExists)
                &&& final(self).same_slots(*old(self))
                &&& final(self).fail_next_set == old(self).fail_next_set
            },
            old(self).slot(name) is None ==> {
                &&& r == Ok::<(), Error>(())
                &&& final(self).slot(name) == Some(
                    ValueV::Keys(
                        seq![KeyVersionV { private: key@, public: public_key_of(key@) }],
                    ),
                )
                &&& forall|n: RecordName| n != name ==> final(self).slot(n) == old(self).slot(n)
                &&& final(self).fail_next_set == old(self).fail_next_set
            },
    {
        let occupied = match name {
            RecordName::ConsensusKey => self.consensus_key.is_some(),
            RecordName::ExecutionKey => self.execution_key.is_some(),
            RecordName::OwnerAccount => self.owner_account.is_some(),
            RecordName::SafetyData => self.safety_data.is_some(),
            RecordName::Waypoint => self.waypoint.is_some(),
        };
        if occupied {
            return Err(Error::KeyAlreadyExists);
        }
        let public = derive_public_key(&key);
        let versions = vec![KeyVersion { private: key, public }];
        let value = StorageValue::Keys(versions);
        proof {
            assert(value@ =~= ValueV::Keys(
                seq![KeyVersionV { private: key@, public: public_key_of(key@) }],
            ));
        }
        match name {
            RecordName::ConsensusKey => {
                self.consensus_key = Some(value);
            }
            RecordName::ExecutionKey => {
                self.execution_key = Some(value);
            }
            RecordName::OwnerAccount => {
                self.owner_account = Some(value);
            }
            RecordName::SafetyData => {
                self.safety_data = Some(value);
            }
            RecordName::Waypoint => {
                self.waypoint = Some(value);
            }
        }
        Ok(())
    }

    /// Export the private key of the version under `name` whose public key
    /// is `version`.
    pub fn export_private_key_for_version(&self, name: RecordName, version: &PublicKey) -> (r:
        Result<PrivateKey, Error>)
        ensures
            match self.slot(name) {
                Some(ValueV::Keys(keys)) => if has_version(keys, version@) {
                    r matches Ok(sk) && exists|i: int|
                        0 <= i < keys.len() && keys[i].public == version@ && keys[i].private
                            == sk@
                } else {
                    r == Err::<PrivateKey, Error>(Error::VersionNotFound)
                },
                Some(_) => r == Err::<PrivateKey, Error>(Error::SerializationError),
                None => r == Err::<PrivateKey, Error>(Error::KeyNotFound),
            },
    {
        match self.find_version(name, version) {
            Ok(kv) => Ok(kv.private),
            Err(e) => Err(e),
        }
    }

    /// The public key of the current (most recently added) version under
    /// `name`.
    pub fn get_public_key(&self, name: RecordName) -> (r: Result<PublicKey, Error>)
        ensures
            match self.slot(name) {
                Some(ValueV::Keys(keys)) => if keys.len() > 0 {
                    r matches Ok(pk) && pk@ == keys.last().public
                } else {
                    r == Err::<PublicKey, Error>(Error::VersionNotFound)
                },
                Some(_) => r == Err::<PublicKey, Error>(Error::SerializationError),
                None => r == Err::<PublicKey, Error>(Error::KeyNotFound),
            },
    {
        let slot = match name {
            RecordName::ConsensusKey => &self.consensus_key,
            RecordName::ExecutionKey => &self.execution_key,
            RecordName::OwnerAccount => &self.owner_account,
            RecordName::SafetyData => &self.safety_data,
            RecordName::Waypoint => &self.waypoint,
        };
        match slot {
            Some(StorageValue::Keys(keys)) => {
                if keys.len() == 0 {
                    Err(Error::VersionNotFound)
                } else {
                    let kv = keys[keys.len() - 1];
                    Ok(kv.public)
                }
            }
            Some(_) => Err(Error::SerializationError),
            None => Err(Error::KeyNotFound),
        }
    }

    /// Sign `message` with the version under `name` whose public key is
    /// `version`.
    pub fn sign_using_version(
        &self,
        name: RecordName,
        version: &PublicKey,
        message: &[u8],
    ) -> (r: Result<Signature, Error>)
        ensures
            match self.slot(name) {
                Some(ValueV::Keys(keys)) => if has_version(keys, version@) {
                    r matches Ok(sig) && exists|i: int|
                        0 <= i < keys.len() && keys[i].public == version@ && sig@
                            == signature_of(keys[i].private, message@)
                } else {
                    r == Err::<Signature, Error>(Error::VersionNotFound)
                },
                Some(_) => r == Err::<Signature, Error>(Error::SerializationError),
                None => r == Err::<Signature, Error>(Error::KeyNotFound),
            },
    {
        match self.find_version(name, version) {
            Ok(kv) => Ok(sign_message(&kv.private, message)),
            Err(e) => Err(e),
        }
    }

    /// Look up the key version under `name` carrying the given public key.
    fn find_version(&self, name: RecordName, version: &PublicKey) -> (r: Result<
        KeyVersion,
        Error,
    >)
        ensures
            match self.slot(name) {
                Some(ValueV::Keys(keys)) => if has_version(keys, version@) {
                    r matches Ok(kv) && exists|i: int|
                        0 <= i < keys.len() && keys[i] == kv@ && kv@.public == version@
                } else {
                    r == Err::<KeyVersion, Error>(Error::VersionNotFound)
                },
                Some(_) => r == Err::<KeyVersion, Error>(Error::SerializationError),
                None => r == Err::<KeyVersion, Error>(Error::KeyNotFound),
            },
    {
        let slot = match name {
            RecordName::ConsensusKey => &self.consensus_key,
            RecordName::ExecutionKey => &self.execution_key,
            RecordName::OwnerAccount => &self.owner_account,
            RecordName::SafetyData => &self.safety_data,
            RecordName::Waypoint => &self.waypoint,
        };
        match slot {
            Some(StorageValue::Keys(keys)) => {
                let ghost keys_v = keys_view(keys@);
                let mut i: usize = 0;
                while i < keys.len()
                    invariant
                        0 <= i <= keys.len(),
                        self.slot(name) == Some(ValueV::Keys(keys_v)),
                        keys_v == keys_view(keys@),
                        keys_v.len() == keys@.len(),
                        forall|j: int| 0 <= j < keys@.len() ==> keys_v[j] == keys@[j]@,
                        forall|j: int| 0 <= j < i ==> keys_v[j].public != version@,
                    decreases keys.len() - i,
                {
                    let kv = keys[i];
                    if bytes32_eq(&kv.public.bytes, &version.bytes) {
                        proof {
                            assert(keys_v[i as int] == kv@);
                            assert(exists|j: int|
                                0 <= j < keys_v.len() && keys_v[j] == kv@ && kv@.public
                                    == version@);
                        }
                        return Ok(kv);
                    }
                    i = i + 1;
                }
                Err(Error::VersionNotFound)
            }
            Some(_) => Err(Error::SerializationError),
            None => Err(Error::KeyNotFound),
        }
    }
}

} // verus!

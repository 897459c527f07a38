use vstd::prelude::*;

verus! {

/// The validator's account identity. It is written once at initialization
/// and never changes afterwards.
#[derive(Clone, Copy, Debug, PartialEq, Eq)]
pub struct Author {
    pub bytes: [u8; 32],
}

impl View for Author {
    type V = Seq<u8>;

    open spec fn view(&self) -> Seq<u8> {
        self.bytes@
    }
}

/// A verifiable checkpoint of ledger state: the ledger version it covers and
/// a digest over that state. This layer only persists and returns waypoints;
/// consumers validate state proofs against them.
#[derive(Clone, Copy, Debug, PartialEq, Eq)]
pub struct Waypoint {
    pub version: u64,
    pub value: [u8; 32],
}

/// The mathematical shape of a waypoint.
#[verifier::ext_equal]
pub ghost struct WaypointV {
    pub version: u64,
    pub value: Seq<u8>,
}

impl View for Waypoint {
    type V = WaypointV;

    open spec fn view(&self) -> WaypointV {
        WaypointV { version: self.version, value: self.value@ }
    }
}

impl Waypoint {
    /// The ledger version this waypoint covers.
    pub fn version(&self) -> (r: u64)
        ensures
            r == self.version,
    {
        self.version
    }
}

impl Default for Waypoint {
    /// The zero waypoint: version 0 with an all-zero digest.
    fn default() -> (r: Self)
        ensures
            r.version == 0,
            forall|i: int| 0 <= i < 32 ==> r.value@[i] == 0u8,
    {
        Waypoint { version: 0, value: [0u8; 32] }
    }
}

/// The view of an optional vote record: the record's bytes, if one is held.
pub open spec fn vote_view(vote: Option<Vec<u8>>) -> Option<Seq<u8>> {
    match vote {
        Option::None => None,
        Option::Some(v) => Some(v@),
    }
}

/// The minimal per-validator safety record: epoch and round counters together
/// with the last vote cast, if any. This layer replaces the whole record on
/// every write and never updates single fields; monotonicity of the counters
/// is the caller's responsibility.
#[derive(Clone, Debug, PartialEq, Eq)]
pub struct SafetyData {
    pub epoch: u64,
    pub last_voted_round: u64,
    pub preferred_round: u64,
    pub one_chain_round: u64,
    pub last_vote: Option<Vec<u8>>,
}

/// The mathematical shape of a safety record.
#[verifier::ext_equal]
pub ghost struct SafetyDataV {
    pub epoch: u64,
    pub last_voted_round: u64,
    pub preferred_round: u64,
    pub one_chain_round: u64,
    pub last_vote: Option<Seq<u8>>,
}

impl View for SafetyData {
    type V = SafetyDataV;

    open spec fn view(&self) -> SafetyDataV {
        SafetyDataV {
            epoch: self.epoch,
            last_voted_round: self.last_voted_round,
            preferred_round: self.preferred_round,
            one_chain_round: self.one_chain_round,
            last_vote: vote_view(self.last_vote),
        }
    }
}

impl SafetyData {
    /// Assemble a safety record from its fields.
    pub fn new(
        epoch: u64,
        last_voted_round: u64,
        preferred_round: u64,
        one_chain_round: u64,
        last_vote: Option<Vec<u8>>,
    ) -> (r: Self)
        ensures
            r@ == (SafetyDataV {
                epoch,
                last_voted_round,
                preferred_round,
                one_chain_round,
                last_vote: vote_view(last_vote),
            }),
    {
        SafetyData { epoch, last_voted_round, preferred_round, one_chain_round, last_vote }
    }

    /// A copy of this record with the same view.
    pub fn duplicate(&self) -> (r: Self)
        ensures
            r@ == self@,
    {
        let last_vote = match &self.last_vote {
            Option::None => None,
            Option::Some(v) => Some(copy_bytes(v)),
        };
        SafetyData {
            epoch: self.epoch,
            last_voted_round: self.last_voted_round,
            preferred_round: self.preferred_round,
            one_chain_round: self.one_chain_round,
            last_vote,
        }
    }
}

/// A fresh byte vector with the same contents.
pub(crate) fn copy_bytes(v: &Vec<u8>) -> (r: Vec<u8>)
    ensures
        r@ == v@,
{
    let mut r: Vec<u8> = Vec::new();
    let mut i: usize = 0;
    while i < v.len()
        invariant
            0 <= i <= v.len(),
            r@ == v@.subrange(0, i as int),
        decreases v.len() - i,
    {
        r.push(v[i]);
        proof {
            assert(r@ =~= v@.subrange(0, i + 1));
        }
        i = i + 1;
    }
    proof {
        assert(r@ =~= v@);
    }
    r
}

} // verus!

use vstd::prelude::*;

use crate::storage::RecordName;

verus! {

/// Which backend operation a timer sample covers.
#[derive(Clone, Copy, Debug, PartialEq, Eq, Structural)]
pub enum OpKind {
    Read,
    Write,
}

/// One timer sample, tagged by operation kind and record name.
#[derive(Clone, Copy, Debug, PartialEq, Eq, Structural)]
pub struct TimerSample {
    pub op: OpKind,
    pub record: RecordName,
}

/// The observability port: gauges, timer samples and audit records, owned by
/// the storage handle so tests can substitute a fresh recorder per instance.
/// Recording never influences control flow or error propagation.
pub struct Counters {
    /// Gauge: epoch of the last safety record handed to the backend.
    pub epoch: u64,
    /// Gauge: last voted round of the last safety record handed to the backend.
    pub last_voted_round: u64,
    /// Gauge: preferred round of the last safety record handed to the backend.
    pub preferred_round: u64,
    /// Gauge: version of the last waypoint handed to the backend.
    pub waypoint_version: u64,
    /// One sample per backend get/set, tagged by operation and record name.
    pub timer_samples: Vec<TimerSample>,
    /// Audit record: the version of each waypoint update the backend confirmed.
    pub waypoint_updates: Vec<u64>,
}

/// All gauges at zero and no samples or audit records yet.
pub open spec fn counters_zero(c: Counters) -> bool {
    &&& c.epoch == 0
    &&& c.last_voted_round == 0
    &&& c.preferred_round == 0
    &&& c.waypoint_version == 0
    &&& c.timer_samples@ == Seq::<TimerSample>::empty()
    &&& c.waypoint_updates@ == Seq::<u64>::empty()
}

/// The gauges of `a` agree with those of `b`.
pub open spec fn same_gauges(a: Counters, b: Counters) -> bool {
    &&& a.epoch == b.epoch
    &&& a.last_voted_round == b.last_voted_round
    &&& a.preferred_round == b.preferred_round
    &&& a.waypoint_version == b.waypoint_version
}

impl Counters {
    /// A fresh recorder with all gauges at zero.
    pub fn new() -> (r: Self)
        ensures
            counters_zero(r),
    {
        let r = Counters {
            epoch: 0,
            last_voted_round: 0,
            preferred_round: 0,
            waypoint_version: 0,
            timer_samples: Vec::new(),
            waypoint_updates: Vec::new(),
        };
        proof {
            assert(r.timer_samples@ =~= Seq::<TimerSample>::empty());
            assert(r.waypoint_updates@ =~= Seq::<u64>::empty());
        }
        r
    }
}

} // verus!

//! The quality-of-service policies that the bridge reads and adjusts, and the
//! rules by which a discovered policy becomes the policy of the mirrored endpoint.

use vstd::prelude::*;

verus! {

/// The blocking time that stands for "wait for ever".
pub const DDS_INFINITE_TIME: i64 = 0x7FFF_FFFF_FFFF_FFFF;

/// Whether samples may be lost on the way.
#[derive(Clone, Copy, Debug, PartialEq, Eq, Structural)]
pub enum ReliabilityKind {
    BestEffort,
    Reliable,
}

/// Whether an endpoint keeps all samples or only the latest.
#[derive(Clone, Copy, Debug, PartialEq, Eq, Structural)]
pub enum HistoryKind {
    KeepLast,
    KeepAll,
}

/// Whose own writers a reader does not listen to.
#[derive(Clone, Copy, Debug, PartialEq, Eq, Structural)]
pub enum IgnoreLocalKind {
    Nothing,
    Participant,
    Process,
}

/// The reliability policy: its kind and, in nanoseconds, how long a reliable
/// writer may block.
#[derive(Clone, Copy, Debug, PartialEq, Eq, Structural)]
pub struct Reliability {
    pub kind: ReliabilityKind,
    pub max_blocking_time: i64,
}

/// The history policy: its kind and the depth kept.
#[derive(Clone, Copy, Debug, PartialEq, Eq, Structural)]
pub struct History {
    pub kind: HistoryKind,
    pub depth: i32,
}

/// The policies of one discovered entity.
///
/// `handle` names the policy object that the bus runtime holds; every policy
/// that is not a field here stays with that object and passes through unchanged.
/// A policy that the entity did not set is `None`.
#[derive(Clone, Copy, Debug, PartialEq, Eq)]
pub struct QosHolder {
    pub handle: u64,
    pub reliability: Option<Reliability>,
    pub history: Option<History>,
    pub ignore_local: Option<IgnoreLocalKind>,
}

/// The policy of a mirrored endpoint: that of the discovered entity, but keeping
/// all history and ignoring what the bridge's own participant writes.
pub open spec fn mirrored(qos: QosHolder) -> QosHolder {
    QosHolder {
        handle: qos.handle,
        reliability: qos.reliability,
        history: Some(History { kind: HistoryKind::KeepAll, depth: 0 }),
        ignore_local: Some(IgnoreLocalKind::Participant),
    }
}

/// Whether the policy is reliable with a finite blocking time.
pub open spec fn blocks_finitely(qos: QosHolder) -> bool {
    qos.reliability matches Some(r) && r.kind == ReliabilityKind::Reliable && r.max_blocking_time
        < DDS_INFINITE_TIME
}

/// The policy of a mirrored writer: a reliable policy with a finite blocking time
/// blocks one nanosecond longer, every other policy is unchanged.
pub open spec fn writer_policy(qos: QosHolder) -> QosHolder {
    if blocks_finitely(qos) {
        QosHolder {
            handle: qos.handle,
            reliability: Some(
                Reliability {
                    kind: ReliabilityKind::Reliable,
                    max_blocking_time: (qos.reliability->Some_0.max_blocking_time + 1) as i64,
                },
            ),
            history: qos.history,
            ignore_local: qos.ignore_local,
        }
    } else {
        qos
    }
}

impl QosHolder {
    /// The policy with which the mirrored endpoint is created.
    pub fn mirror(self) -> (out: QosHolder)
        ensures
            out == mirrored(self),
    {
        QosHolder {
            handle: self.handle,
            reliability: self.reliability,
            history: Some(History { kind: HistoryKind::KeepAll, depth: 0 }),
            ignore_local: Some(IgnoreLocalKind::Participant),
        }
    }

    /// The policy with which a mirrored writer is created.
    pub fn for_writer(self) -> (out: QosHolder)
        ensures
            out == writer_policy(self),
    {
        match self.reliability {
            Some(r) => {
                if r.kind == ReliabilityKind::Reliable && r.max_blocking_time < DDS_INFINITE_TIME {
                    QosHolder {
                        handle: self.handle,
                        reliability: Some(
                            Reliability {
                                kind: ReliabilityKind::Reliable,
                                max_blocking_time: r.max_blocking_time + 1,
                            },
                        ),
                        history: self.history,
                        ignore_local: self.ignore_local,
                    }
                } else {
                    self
                }
            },
            None => self,
        }
    }
}

/// A reliable policy with the finite blocking time `t` becomes one with `t + 1`;
/// an infinite or a non-reliable policy keeps its blocking time, and nothing but
/// the blocking time ever changes.
pub proof fn writer_policy_adds_one(qos: QosHolder)
    ensures
        blocks_finitely(qos) ==> writer_policy(qos).reliability == Some(
            Reliability {
                kind: ReliabilityKind::Reliable,
                max_blocking_time: (qos.reliability->Some_0.max_blocking_time + 1) as i64,
            },
        ) && writer_policy(qos).reliability->Some_0.max_blocking_time
            == qos.reliability->Some_0.max_blocking_time + 1,
        !blocks_finitely(qos) ==> writer_policy(qos) == qos,
        writer_policy(qos).handle == qos.handle,
        writer_policy(qos).history == qos.history,
        writer_policy(qos).ignore_local == qos.ignore_local,
        writer_policy(qos).reliability is Some == qos.reliability is Some,
{
}

} // verus!

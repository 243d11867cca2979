//! Wire-level Paxos message types of the sequence-consensus protocol.

use vstd::prelude::*;

verus! {

use crate::ballot::Ballot;
use crate::storage::{SnapshotType, StopSign};
use crate::util::{NodeId, SequenceNumber};

/// Leader's first-phase request for a promise.
#[derive(Clone, Copy, PartialEq, Eq, Structural, Debug)]
pub struct Prepare {
    /// The round the leader campaigns for.
    pub n: Ballot,
    /// The leader's latest accepted round.
    pub n_accepted: Ballot,
    /// The leader's accepted (log length) index.
    pub accepted_idx: u64,
    /// The leader's decided index.
    pub decided_idx: u64,
}

/// Follower's first-phase reply: a durable commitment not to accept below
/// `n`, carrying what the follower has that the leader may lack.
#[derive(Debug)]
pub struct Promise<T, S> {
    /// The promised round.
    pub n: Ballot,
    /// The follower's latest accepted round.
    pub n_accepted: Ballot,
    /// Snapshot of the decided prefix the leader is missing, if any.
    pub decided_snapshot: Option<SnapshotType<S>>,
    /// Entries the leader is missing.
    pub suffix: Vec<T>,
    /// The follower's decided index.
    pub decided_idx: u64,
    /// The follower's accepted (log length) index.
    pub accepted_idx: u64,
    /// The follower's stored stop-sign, if any.
    pub stopsign: Option<StopSign>,
}

/// Leader's catch-up message delivering a suffix and/or snapshot to a
/// newly-promised follower.
#[derive(Debug)]
pub struct AcceptSync<T, S> {
    /// The synchronizing round.
    pub n: Ballot,
    /// Snapshot covering the decided prefix, if the follower needs one.
    pub decided_snapshot: Option<SnapshotType<S>>,
    /// Entries from `sync_idx` on.
    pub suffix: Vec<T>,
    /// Virtual index where `suffix` starts.
    pub sync_idx: u64,
    /// The leader's decided index.
    pub decided_idx: u64,
    /// The leader's stop-sign, if any.
    pub stopsign: Option<StopSign>,
    /// First sequence number of the session.
    pub seq_num: SequenceNumber,
}

/// Leader's combined accept-and-decide message in the steady state.
#[derive(Debug)]
pub struct AcceptDecide<T> {
    /// The current round.
    pub n: Ballot,
    /// Position in the leader's message sequence.
    pub seq_num: SequenceNumber,
    /// The leader's decided index.
    pub decided_idx: u64,
    /// Entries to append.
    pub entries: Vec<T>,
}

/// Leader's request to accept a stop-sign.
#[derive(Clone, Debug)]
pub struct AcceptStopSign {
    /// The current round.
    pub n: Ballot,
    /// Position in the leader's message sequence.
    pub seq_num: SequenceNumber,
    /// The stop-sign to install.
    pub ss: StopSign,
}

/// Leader's notification that entries up to `decided_idx` are decided.
#[derive(Clone, Copy, PartialEq, Eq, Structural, Debug)]
pub struct Decide {
    /// The current round.
    pub n: Ballot,
    /// Position in the leader's message sequence.
    pub seq_num: SequenceNumber,
    /// The new decided index.
    pub decided_idx: u64,
}

/// Leader's notification that the stop-sign is decided.
#[derive(Clone, Copy, PartialEq, Eq, Structural, Debug)]
pub struct DecideStopSign {
    /// The current round.
    pub n: Ballot,
    /// Position in the leader's message sequence.
    pub seq_num: SequenceNumber,
}

/// Follower's acknowledgment of accepted entries; its `accepted_idx` may
/// be advanced in place while the message is still queued.
#[derive(Clone, Copy, PartialEq, Eq, Structural, Debug)]
pub struct Accepted {
    /// The acknowledged round.
    pub n: Ballot,
    /// The follower's accepted (log length) index.
    pub accepted_idx: u64,
}

/// Follower's acknowledgment of an accepted stop-sign.
#[derive(Clone, Copy, PartialEq, Eq, Structural, Debug)]
pub struct AcceptedStopSign {
    /// The acknowledged round.
    pub n: Ballot,
}

/// The tagged union of sequence-consensus messages.
#[derive(Debug)]
pub enum PaxosMsg<T, S> {
    /// Request for a re-sync after a detected drop or reconnect.
    PrepareReq,
    /// First-phase request.
    Prepare(Prepare),
    /// First-phase reply.
    Promise(Promise<T, S>),
    /// Catch-up for a newly promised follower.
    AcceptSync(AcceptSync<T, S>),
    /// Steady-state replication.
    AcceptDecide(AcceptDecide<T>),
    /// Stop-sign replication.
    AcceptStopSign(AcceptStopSign),
    /// Decide notification.
    Decide(Decide),
    /// Stop-sign decide notification.
    DecideStopSign(DecideStopSign),
    /// Acknowledgment of accepted entries.
    Accepted(Accepted),
    /// Acknowledgment of an accepted stop-sign.
    AcceptedStopSign(AcceptedStopSign),
    /// Client proposals forwarded to the leader.
    ProposalForward(Vec<T>),
}

/// An addressed message in the outgoing queue.
#[derive(Debug)]
pub struct PaxosMessage<T, S> {
    /// Sender process id.
    pub from: NodeId,
    /// Destination process id.
    pub to: NodeId,
    /// The payload.
    pub msg: PaxosMsg<T, S>,
}

} // verus!

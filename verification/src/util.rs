//! Shared identifiers, the per-leader sequence-number tracker, and the
//! uniform log-entry type that range reads produce.

use vstd::prelude::*;

verus! {

use crate::storage::StopSign;

/// Unique identifier of a replica process. Nonzero for real replicas.
pub type NodeId = u64;

/// Identifier of a configuration.
pub type ConfigurationId = u32;

/// Copies `v[from..to]` into a fresh vector.
pub fn copy_range<T: Copy>(v: &Vec<T>, from: usize, to: usize) -> (r: Vec<T>)
    requires
        from <= to <= v@.len(),
    ensures
        r@ == v@.subrange(from as int, to as int),
{
    let mut r: Vec<T> = Vec::new();
    let mut i: usize = from;
    while i < to
        invariant
            from <= i <= to <= v@.len(),
            r@ == v@.subrange(from as int, i as int),
        decreases to - i,
    {
        r.push(v[i]);
        proof {
            assert(r@ =~= v@.subrange(from as int, i + 1 as int));
        }
        i = i + 1;
    }
    r
}

/// Classification of an incoming message's sequence number against the
/// tracker's current value.
#[derive(Clone, Copy, PartialEq, Eq, Structural, Debug)]
pub enum MessageStatus {
    /// First message of a new leader session (or the very first message
    /// when the tracker is still in its default state).
    First,
    /// The next message of the current session: same session, counter one
    /// above the tracker.
    Expected,
    /// Same session but a counter gap above one: a preceding message was
    /// dropped.
    DroppedPreceding,
    /// An older session, or a counter at or below the tracker's.
    Outdated,
}

/// Per-leader monotonic `(session, counter)` pair used to detect dropped
/// predecessors in the accept phase.
#[derive(Clone, Copy, PartialEq, Eq, Structural, Debug)]
pub struct SequenceNumber {
    /// Leader session; a leader reboot starts a new session.
    pub session: u64,
    /// Position within the session.
    pub counter: u64,
}

impl SequenceNumber {
    /// How `check_msg_status` classifies `m` against the tracker `self`.
    pub open spec fn check_spec(self, m: SequenceNumber) -> MessageStatus {
        if m.session > self.session {
            MessageStatus::First
        } else if m.session < self.session {
            MessageStatus::Outdated
        } else if m.counter == self.counter + 1 {
            if self.session == 0 && self.counter == 0 {
                MessageStatus::First
            } else {
                MessageStatus::Expected
            }
        } else if m.counter > self.counter + 1 {
            MessageStatus::DroppedPreceding
        } else {
            MessageStatus::Outdated
        }
    }

    /// Compares this sequence number with the sequence number of an
    /// incoming message.
    pub fn check_msg_status(&self, msg_seq_num: SequenceNumber) -> (r: MessageStatus)
        ensures
            r == self.check_spec(msg_seq_num),
    {
        if msg_seq_num.session > self.session {
            MessageStatus::First
        } else if msg_seq_num.session < self.session {
            MessageStatus::Outdated
        } else if msg_seq_num.counter <= self.counter {
            MessageStatus::Outdated
        } else if msg_seq_num.counter == self.counter + 1 {
            if self.session == 0 && self.counter == 0 {
                MessageStatus::First
            } else {
                MessageStatus::Expected
            }
        } else {
            MessageStatus::DroppedPreceding
        }
    }
}

impl Default for SequenceNumber {
    /// The tracker's state before any message of any session was seen.
    fn default() -> (r: SequenceNumber)
        ensures
            r == (SequenceNumber { session: 0u64, counter: 0u64 }),
    {
        SequenceNumber { session: 0, counter: 0 }
    }
}

/// A sequence number a handler commits to (classified `First` or
/// `Expected`) is strictly monotonic within a session, and a session can
/// only change through a `First` classification.
pub proof fn lemma_seq_num_monotonic(cur: SequenceNumber, m: SequenceNumber)
    requires
        cur.check_spec(m) == MessageStatus::First || cur.check_spec(m) == MessageStatus::Expected,
    ensures
        m.session > cur.session || (m.session == cur.session && m.counter > cur.counter),
        m.session != cur.session ==> cur.check_spec(m) == MessageStatus::First,
{
}

/// Replaying a message that was just committed is classified `Outdated`:
/// after the tracker advanced to `m`, `m` itself is at or below it.
pub proof fn lemma_replay_outdated(m: SequenceNumber)
    ensures
        m.check_spec(m) == MessageStatus::Outdated,
{
}

/// Marker of what occupies a virtual log index.
#[derive(Clone, Debug)]
pub enum IndexEntry {
    /// The index lies below the compacted prefix.
    Compacted,
    /// The index holds a physically present entry.
    Entry,
    /// The index is the stop-sign slot just past the log's end.
    StopSign(StopSign),
}

/// A snapshot standing in for the compacted prefix `[0, trimmed_idx)`.
#[derive(Clone, Debug)]
pub struct SnapshottedEntry<S> {
    /// Virtual index below which entries were replaced by the snapshot.
    pub trimmed_idx: u64,
    /// The snapshot covering the compacted prefix.
    pub snapshot: S,
}

impl<S> SnapshottedEntry<S> {
    /// Creates a [`SnapshottedEntry`].
    pub fn with(trimmed_idx: u64, snapshot: S) -> (r: Self)
        ensures
            r.trimmed_idx == trimmed_idx,
            r.snapshot == snapshot,
    {
        SnapshottedEntry { trimmed_idx, snapshot }
    }
}

/// Uniform element of a bounded range read over the virtual log.
#[derive(Clone, Debug)]
pub enum LogEntry<T, S> {
    /// An entry at or below the decided index.
    Decided(T),
    /// An entry above the decided index.
    Undecided(T),
    /// The compacted prefix, trimmed without a snapshot.
    Trimmed(u64),
    /// The compacted prefix, replaced by a snapshot.
    Snapshotted(SnapshottedEntry<S>),
    /// The decided stop-sign occupying the slot past the log's end.
    StopSign(StopSign),
}

} // verus!

//! The follower side of Sequence Paxos: handlers for the five inbound
//! protocol messages, which mutate storage in a safe order (round first,
//! then decided index, then snapshot or entries), emit `Promise`,
//! `Accepted` and `AcceptedStopSign`, and coalesce consecutive `Accepted`
//! acknowledgments into one queued message per round.

use vstd::prelude::*;

verus! {

use crate::ballot::Ballot;
use crate::internal_storage::{
    lemma_apply_rollbacks_one, lemma_apply_rollbacks_two, InternalStorage,
};
use crate::messages::{
    Accepted, AcceptedStopSign, AcceptDecide, AcceptStopSign, AcceptSync, Decide, DecideStopSign,
    PaxosMessage, PaxosMsg, Prepare, Promise,
};
use crate::storage::{
    FatalErr, RollbackValue, Snapshot, SnapshotType, StopSign, StopSignEntry, StopSignEntryView,
    Storage, StorageResult, StorageState,
};
use crate::util::{MessageStatus, NodeId, SequenceNumber};

/// Which side of the protocol the replica currently plays.
#[derive(Clone, Copy, PartialEq, Eq, Structural, Debug)]
pub enum Role {
    /// Handles the inbound messages of this module.
    Follower,
    /// Drives replication (not part of this module).
    Leader,
}

/// Progress within a role.
#[derive(Clone, Copy, PartialEq, Eq, Structural, Debug)]
pub enum Phase {
    /// Promised a round and waiting for the leader's catch-up.
    Prepare,
    /// Synchronized and accepting entries.
    Accept,
    /// Just started or lost the session; waiting for a fresh `Prepare`.
    Recover,
}

/// The follower-side replica: the message-handling state machine around
/// the internal storage.
pub struct SequencePaxos<I, T, S> {
    /// This replica's process id.
    pub pid: NodeId,
    /// The ballot of the current leader.
    pub leader: Ballot,
    /// The replica's role and phase.
    pub state: (Role, Phase),
    /// Tracker of the leader session's message sequence.
    pub current_seq_num: SequenceNumber,
    /// The last promise sent, kept for replay on reconnect; a pure
    /// projection of persistent state.
    pub cached_promise: Option<Promise<T, S>>,
    /// Round and outgoing-queue index of a not-yet-drained `Accepted`
    /// whose `accepted_idx` may still advance in place.
    pub latest_accepted_meta: Option<(Ballot, usize)>,
    /// Client proposals awaiting forwarding to the leader.
    pub pending_proposals: Vec<T>,
    /// Outbound messages, owned until the host drains them.
    pub outgoing: Vec<PaxosMessage<T, S>>,
    /// The compaction-aware storage layer.
    pub internal_storage: InternalStorage<I, T, S>,
}

impl<I, T, S> SequencePaxos<I, T, S> where I: Storage<T, S>, S: Snapshot<T> {
    /// The abstract state of the replica's storage.
    pub open spec fn st(self) -> StorageState<T, S> {
        self.internal_storage.st()
    }

    /// Virtual log length.
    pub open spec fn vlen(self) -> int {
        self.st().vlen()
    }

    /// The coalescing back-index points at a queued `Accepted` of its
    /// round.
    pub open spec fn meta_ok(self) -> bool {
        match self.latest_accepted_meta {
            Some((b, i)) => (i as int) < self.outgoing@.len() && (self.outgoing@[i as int].msg
                matches PaxosMsg::Accepted(a) && a.n == b),
            None => true,
        }
    }

    /// The tracked `Accepted` acknowledges no more than the log holds, so
    /// coalescing only ever advances it.
    pub open spec fn meta_mono(self) -> bool {
        match self.latest_accepted_meta {
            Some((b, i)) => self.outgoing@[i as int].msg matches PaxosMsg::Accepted(a)
                && a.accepted_idx as int <= self.vlen(),
            None => true,
        }
    }

    /// The replica invariant, holding between handler invocations:
    /// the compacted index never passes the decided index, the decided
    /// index stays within the virtual log (one past it only for a decided
    /// stop-sign), the follower never accepts below its promise, the
    /// leader field tracks the promise while promised, and the coalescing
    /// back-index is sound.
    pub open spec fn inv(self) -> bool {
        &&& self.st().wf()
        &&& self.st().compacted_idx <= self.st().decided_idx
        &&& (self.st().decided_idx <= self.vlen() || (self.st().decided_idx == self.vlen() + 1
            && self.st().ss_decided()))
        &&& self.st().accepted_round.le_spec(self.st().promise)
        &&& ((self.state.1 == Phase::Prepare || self.state.1 == Phase::Accept) ==> self.leader
            == self.st().promise)
        &&& self.meta_ok()
        &&& self.meta_mono()
    }

    /// Gate of `handle_prepare`: a strictly higher round, or the same
    /// round again while recovering.
    pub open spec fn prepare_gate(self, prep: Prepare) -> bool {
        self.st().promise.lt_spec(prep.n) || (self.st().promise == prep.n && self.state.1
            == Phase::Recover)
    }

    /// Gate of `handle_acceptsync`: the promised round, in the prepare
    /// phase.
    pub open spec fn acceptsync_gate(self, n: Ballot) -> bool {
        self.st().promise == n && self.state == (Role::Follower, Phase::Prepare)
    }

    /// Gate of the accept-phase handlers: the promised round, following
    /// in the accept phase.
    pub open spec fn accept_gate(self, n: Ballot) -> bool {
        self.st().promise == n && self.state == (Role::Follower, Phase::Accept)
    }

    /// Gate of the decide handlers: the promised round, in the accept
    /// phase of either role.
    pub open spec fn decide_gate(self, n: Ballot) -> bool {
        self.st().promise == n && self.state.1 == Phase::Accept
    }

    /// A fresh follower over recovered storage: `(Follower, Recover)`
    /// until a leader prepares it.
    pub fn with(pid: NodeId, storage: I) -> (r: Self)
        requires
            storage.abs().wf(),
            storage.abs().compacted_idx <= storage.abs().decided_idx,
            storage.abs().decided_idx <= storage.abs().vlen() || (storage.abs().decided_idx
                == storage.abs().vlen() + 1 && storage.abs().ss_decided()),
            storage.abs().accepted_round.le_spec(storage.abs().promise),
        ensures
            r.inv(),
            r.pid == pid,
            r.leader == (Ballot { n: 0u32, pid: 0u64 }),
            r.state == (Role::Follower, Phase::Recover),
            r.current_seq_num == (SequenceNumber { session: 0u64, counter: 0u64 }),
            r.cached_promise is None,
            r.latest_accepted_meta is None,
            r.pending_proposals@ == Seq::<T>::empty(),
            r.outgoing@ == Seq::<PaxosMessage<T, S>>::empty(),
            r.st() == storage.abs(),
    {
        SequencePaxos {
            pid,
            leader: Ballot { n: 0, pid: 0 },
            state: (Role::Follower, Phase::Recover),
            current_seq_num: SequenceNumber { session: 0, counter: 0 },
            cached_promise: None,
            latest_accepted_meta: None,
            pending_proposals: Vec::new(),
            outgoing: Vec::new(),
            internal_storage: InternalStorage::with(storage),
        }
    }

    /// Hands the queued outbound messages to the host and invalidates the
    /// coalescing back-index, which would otherwise dangle.
    pub fn take_outgoing(&mut self) -> (r: Vec<PaxosMessage<T, S>>)
        ensures
            r@ == old(self).outgoing@,
            final(self).outgoing@ == Seq::<PaxosMessage<T, S>>::empty(),
            final(self).latest_accepted_meta is None,
            final(self).st() == old(self).st(),
            final(self).pid == old(self).pid,
            final(self).leader == old(self).leader,
            final(self).state == old(self).state,
            final(self).current_seq_num == old(self).current_seq_num,
            final(self).cached_promise == old(self).cached_promise,
            final(self).pending_proposals == old(self).pending_proposals,
            old(self).inv() ==> final(self).inv(),
    {
        self.latest_accepted_meta = None;
        let mut out: Vec<PaxosMessage<T, S>> = Vec::new();
        core::mem::swap(&mut self.outgoing, &mut out);
        out
    }

    /// Appends a proposal to forward to the leader upon entering the
    /// accept phase.
    pub fn append_pending_proposal(&mut self, entry: T)
        ensures
            final(self).pending_proposals@ == old(self).pending_proposals@.push(entry),
            final(self).st() == old(self).st(),
            final(self).outgoing == old(self).outgoing,
            final(self).state == old(self).state,
            final(self).pid == old(self).pid,
            final(self).leader == old(self).leader,
            final(self).current_seq_num == old(self).current_seq_num,
            final(self).cached_promise == old(self).cached_promise,
            final(self).latest_accepted_meta == old(self).latest_accepted_meta,
            old(self).inv() ==> final(self).inv(),
    {
        self.pending_proposals.push(entry);
    }

    /// Signals that this follower needs a fresh `Prepare`/`AcceptSync`
    /// from `pid`: when that peer is the current leader, the phase drops
    /// to `Recover` so no further message of the current sequence commits,
    /// and a `PrepareReq` is queued to the peer.
    pub fn reconnected(&mut self, pid: NodeId)
        ensures
            reconnected_post(*old(self), pid, *final(self)),
            old(self).inv() ==> final(self).inv(),
    {
        if pid == self.leader.pid {
            self.state = (Role::Follower, Phase::Recover);
        }
        self.outgoing.push(
            PaxosMessage { from: self.pid, to: pid, msg: PaxosMsg::PrepareReq },
        );
    }

    /// Atomically takes the pending proposals and queues them for the
    /// leader in one `ProposalForward`, if there are any.
    pub fn forward_pending_proposals(&mut self)
        ensures
            final(self).pending_proposals@ == Seq::<T>::empty(),
            old(self).pending_proposals@.len() > 0 ==> final(self).outgoing@ == old(self).outgoing@.push(
                PaxosMessage {
                    from: old(self).pid,
                    to: old(self).leader.pid,
                    msg: PaxosMsg::ProposalForward(old(self).pending_proposals),
                },
            ),
            old(self).pending_proposals@.len() == 0 ==> final(self).outgoing
                == old(self).outgoing,
            final(self).st() == old(self).st(),
            final(self).pid == old(self).pid,
            final(self).leader == old(self).leader,
            final(self).state == old(self).state,
            final(self).current_seq_num == old(self).current_seq_num,
            final(self).cached_promise == old(self).cached_promise,
            final(self).latest_accepted_meta == old(self).latest_accepted_meta,
            old(self).inv() ==> final(self).inv(),
    {
        let mut proposals: Vec<T> = Vec::new();
        core::mem::swap(&mut self.pending_proposals, &mut proposals);
        if proposals.len() > 0 {
            self.outgoing.push(
                PaxosMessage {
                    from: self.pid,
                    to: self.leader.pid,
                    msg: PaxosMsg::ProposalForward(proposals),
                },
            );
        }
    }

    /// Installs `ss` as the (undecided) stop-sign.
    fn accept_stopsign(&mut self, ss: StopSign) -> (r: StorageResult<()>)
        ensures
            r is Err ==> final(self).st() == old(self).st(),
            r is Ok ==> final(self).st() == old(self).st().with_stopsign(
                Some(StopSignEntryView { stopsign: ss@, decided: false }),
            ),
            final(self).pid == old(self).pid,
            final(self).leader == old(self).leader,
            final(self).state == old(self).state,
            final(self).current_seq_num == old(self).current_seq_num,
            final(self).cached_promise == old(self).cached_promise,
            final(self).latest_accepted_meta == old(self).latest_accepted_meta,
            final(self).pending_proposals == old(self).pending_proposals,
            final(self).outgoing == old(self).outgoing,
    {
        self.internal_storage.set_stopsign(StopSignEntry::with(ss, false))
    }

    /// Appends `entries` and acknowledges the new accepted index for round
    /// `n`: while the queued `Accepted` of round `n` is still owned, its
    /// `accepted_idx` is advanced in place; otherwise a fresh `Accepted`
    /// is queued and tracked.
    pub fn accept_entries(&mut self, n: Ballot, entries: Vec<T>) -> (r: StorageResult<()>)
        requires
            old(self).st().wf(),
            old(self).meta_ok(),
            old(self).vlen() + entries@.len() <= u64::MAX,
        ensures
            r is Err ==> final(self).st() == old(self).st() && final(self).outgoing == old(self).outgoing && final(self).latest_accepted_meta == old(self).latest_accepted_meta,
            r is Ok ==> final(self).st() == old(self).st().with_log(
                old(self).st().log + entries@,
            ) && accepted_queued(
                *old(self),
                old(self).outgoing@,
                n,
                old(self).vlen() + entries@.len(),
                *final(self),
            ) && final(self).meta_ok() && final(self).meta_mono(),
            final(self).pid == old(self).pid,
            final(self).leader == old(self).leader,
            final(self).state == old(self).state,
            final(self).current_seq_num == old(self).current_seq_num,
            final(self).cached_promise == old(self).cached_promise,
            final(self).pending_proposals == old(self).pending_proposals,
    {
        let accepted_idx = self.internal_storage.append_entries(entries)?;
        let meta = self.latest_accepted_meta;
        match meta {
            Some((round, outgoing_idx)) => {
                if round == n {
                    let from = self.outgoing[outgoing_idx].from;
                    let to = self.outgoing[outgoing_idx].to;
                    // the cached index must hold an Accepted message
                    match &self.outgoing[outgoing_idx].msg {
                        PaxosMsg::Accepted(_) => {},
                        _ => {
                            proof {
                                assert(false);
                            }
                        },
                    }
                    vstd::pervasive::VecAdditionalExecFns::set(
                        &mut self.outgoing,
                        outgoing_idx,
                        PaxosMessage {
                            from,
                            to,
                            msg: PaxosMsg::Accepted(Accepted { n, accepted_idx }),
                        },
                    );
                } else {
                    self.push_new_accepted(n, accepted_idx);
                }
            },
            None => {
                self.push_new_accepted(n, accepted_idx);
            },
        }
        Ok(())
    }

    /// Queues a fresh `Accepted` for round `n` and points the coalescing
    /// back-index at it.
    fn push_new_accepted(&mut self, n: Ballot, accepted_idx: u64)
        ensures
            final(self).outgoing@ == old(self).outgoing@.push(
                PaxosMessage {
                    from: old(self).pid,
                    to: old(self).leader.pid,
                    msg: PaxosMsg::Accepted(Accepted { n, accepted_idx }),
                },
            ),
            (final(self).latest_accepted_meta matches Some((b, i)) && b == n && i as int == old(self).outgoing@.len()),
            final(self).st() == old(self).st(),
            final(self).pid == old(self).pid,
            final(self).leader == old(self).leader,
            final(self).state == old(self).state,
            final(self).current_seq_num == old(self).current_seq_num,
            final(self).cached_promise == old(self).cached_promise,
            final(self).pending_proposals == old(self).pending_proposals,
    {
        let accepted = Accepted { n, accepted_idx };
        let cached_idx = self.outgoing.len();
        self.latest_accepted_meta = Some((n, cached_idx));
        self.outgoing.push(
            PaxosMessage {
                from: self.pid,
                to: self.leader.pid,
                msg: PaxosMsg::Accepted(accepted),
            },
        );
    }
}

impl<I, T, S> SequencePaxos<I, T, S> where I: Storage<T, S>, S: Snapshot<T> {
    /// Assembles the `Promise` reply to `prep` from the current state:
    /// what this follower has accepted and decided, plus the suffix (and,
    /// with snapshots in use, the delta snapshot) that the leader is
    /// missing. A pure projection of persistent state.
    fn build_promise(&self, prep: Prepare) -> (r: Result<Promise<T, S>, crate::storage::StorageErr>)
        requires
            self.st().wf(),
            self.st().compacted_idx <= self.st().decided_idx <= u64::MAX,
        ensures
            r matches Ok(p) ==> promise_ok::<T, S>(self.st(), prep, p),
    {
        let na = self.internal_storage.get_accepted_round()?;
        let accepted_idx = self.internal_storage.get_log_len()?;
        let decided_idx = self.internal_storage.get_decided_idx()?;
        let stopsign = match self.internal_storage.get_stopsign()? {
            Some(e) => Some(e.stopsign),
            None => None,
        };
        let (decided_snapshot, suffix) = if prep.n_accepted < na {
            let ld = prep.decided_idx;
            if ld < decided_idx && S::use_snapshots() {
                let delta_snapshot = self.internal_storage.create_diff_snapshot(ld, decided_idx)?;
                let suffix = self.internal_storage.get_suffix(decided_idx)?;
                (Some(delta_snapshot), suffix)
            } else {
                let suffix = self.internal_storage.get_suffix(ld)?;
                (None, suffix)
            }
        } else if na == prep.n_accepted && accepted_idx > prep.accepted_idx {
            let compacted_idx = self.internal_storage.get_compacted_idx()?;
            if S::use_snapshots() && compacted_idx > prep.accepted_idx {
                let delta_snapshot = self.internal_storage.create_diff_snapshot(
                    prep.decided_idx,
                    decided_idx,
                )?;
                let suffix = self.internal_storage.get_suffix(decided_idx)?;
                (Some(delta_snapshot), suffix)
            } else {
                let suffix = self.internal_storage.get_suffix(prep.accepted_idx)?;
                (None, suffix)
            }
        } else {
            (None, Vec::new())
        };
        Ok(
            Promise {
                n: prep.n,
                n_accepted: na,
                decided_snapshot,
                suffix,
                decided_idx,
                accepted_idx,
                stopsign,
            },
        )
    }

    /// Handles a leader's `Prepare`: accepts a strictly higher round (or
    /// the same round while recovering), re-enters the prepare phase with
    /// a reset sequence tracker, persists the new promise, and replies
    /// with a `Promise` carrying what the leader is missing; the reply is
    /// also cached for replay on reconnect.
    pub fn handle_prepare(&mut self, prep: Prepare, from: NodeId) -> (r: Result<(), FatalErr>)
        requires
            old(self).inv(),
        ensures
            r is Ok && !old(self).prepare_gate(prep) ==> *final(self) == *old(self),
            r is Ok && old(self).prepare_gate(prep) ==> ({
                &&& final(self).st() == old(self).st().with_promise(prep.n)
                &&& final(self).leader == prep.n
                &&& final(self).state == (Role::Follower, Phase::Prepare)
                &&& final(self).current_seq_num == (SequenceNumber {
                    session: 0u64,
                    counter: 0u64,
                })
                &&& (final(self).cached_promise matches Some(p) && promise_ok::<T, S>(
                    old(self).st(),
                    prep,
                    p,
                ))
                &&& final(self).outgoing@.len() == old(self).outgoing@.len() + 1
                &&& (forall|k: int| 0 <= k < old(self).outgoing@.len() ==> final(self).outgoing@[k]
                    == old(self).outgoing@[k])
                &&& ({
                    let m = final(self).outgoing@.last();
                    &&& m.from == old(self).pid
                    &&& m.to == from
                    &&& (m.msg matches PaxosMsg::Promise(p) && promise_ok::<T, S>(
                        old(self).st(),
                        prep,
                        p,
                    ))
                })
                &&& final(self).pid == old(self).pid
                &&& final(self).pending_proposals == old(self).pending_proposals
                &&& final(self).latest_accepted_meta == old(self).latest_accepted_meta
                &&& final(self).inv()
            }),
            r is Err ==> final(self).st() == old(self).st() && final(self).outgoing == old(self).outgoing && final(self).cached_promise == old(self).cached_promise,
    {
        let old_promise = match self.internal_storage.get_promise() {
            Ok(p) => p,
            Err(_) => {
                return Err(FatalErr { restored: true });
            },
        };
        if old_promise < prep.n || (old_promise == prep.n && self.state.1 == Phase::Recover) {
            self.leader = prep.n;
            self.state = (Role::Follower, Phase::Prepare);
            self.current_seq_num = SequenceNumber { session: 0, counter: 0 };
            // the promise is a pure projection of persistent state, so it
            // is built twice — once to cache, once to send — instead of
            // cloning the payload
            let promise_cache = match self.build_promise(prep) {
                Ok(p) => p,
                Err(_) => {
                    return Err(FatalErr { restored: true });
                },
            };
            let promise_out = match self.build_promise(prep) {
                Ok(p) => p,
                Err(_) => {
                    return Err(FatalErr { restored: true });
                },
            };
            if let Err(_) = self.internal_storage.set_promise(prep.n) {
                return Err(FatalErr { restored: true });
            }
            self.cached_promise = Some(promise_cache);
            self.outgoing.push(
                PaxosMessage { from: self.pid, to: from, msg: PaxosMsg::Promise(promise_out) },
            );
            Ok(())
        } else {
            Ok(())
        }
    }
}

/// The `Promise` reply to `prep` from a follower whose storage state is
/// `st`: it reports the follower's accepted round, accepted and decided
/// indices and stop-sign, and carries the decided-prefix snapshot and the
/// log suffix that the leader is missing, by the case analysis over how
/// the two logs relate.
pub open spec fn promise_ok<T, S: Snapshot<T>>(
    st: StorageState<T, S>,
    prep: Prepare,
    p: Promise<T, S>,
) -> bool {
    &&& p.n == prep.n
    &&& p.n_accepted == st.accepted_round
    &&& p.decided_idx as int == st.decided_idx
    &&& p.accepted_idx as int == st.vlen()
    &&& (match st.stopsign {
        Some(e) => p.stopsign matches Some(ss) && ss@ == e.stopsign,
        None => p.stopsign is None,
    })
    &&& promise_sync_ok::<T, S>(st, prep, p)
}

/// The catch-up payload of a `Promise`: which suffix is attached and
/// whether a snapshot (complete or delta) covers the rest.
pub open spec fn promise_sync_ok<T, S: Snapshot<T>>(
    st: StorageState<T, S>,
    prep: Prepare,
    p: Promise<T, S>,
) -> bool {
    if prep.n_accepted.lt_spec(st.accepted_round) {
        if (prep.decided_idx as int) < st.decided_idx && S::use_snapshots_spec() {
            &&& (p.decided_snapshot matches Some(s) && (s is Complete <==> st.compacted_idx
                >= prep.decided_idx as int))
            &&& p.suffix@ == st.vsuffix(st.decided_idx)
        } else {
            &&& p.decided_snapshot is None
            &&& p.suffix@ == st.vsuffix(prep.decided_idx as int)
        }
    } else if prep.n_accepted == st.accepted_round && st.vlen() > prep.accepted_idx as int {
        if S::use_snapshots_spec() && st.compacted_idx > prep.accepted_idx as int {
            &&& (p.decided_snapshot matches Some(s) && (s is Complete <==> st.compacted_idx
                >= prep.decided_idx as int))
            &&& p.suffix@ == st.vsuffix(st.decided_idx)
        } else {
            &&& p.decided_snapshot is None
            &&& p.suffix@ == st.vsuffix(prep.accepted_idx as int)
        }
    } else {
        &&& p.decided_snapshot is None
        &&& p.suffix@ == Seq::<T>::empty()
    }
}

impl<I, T, S> SequencePaxos<I, T, S> where I: Storage<T, S>, S: Snapshot<T> {
    /// Handles the leader's catch-up `AcceptSync` while promised in the
    /// prepare phase. Multiple storage writes that cannot all be rolled
    /// back happen in a safe order — accepted round, decided index, then
    /// snapshot and entries — so that any failed step restores the scalars
    /// written before it. On success the follower enters the accept phase,
    /// acknowledges with `Accepted`, and installs the stop-sign (replying
    /// `AcceptedStopSign`) or forwards its pending proposals.
    pub fn handle_acceptsync(&mut self, accsync: AcceptSync<T, S>, from: NodeId) -> (r: Result<
        (),
        FatalErr,
    >)
        requires
            old(self).inv(),
            old(self).acceptsync_gate(accsync.n) ==> ({
                &&& old(self).st().compacted_idx <= accsync.decided_idx as int
                &&& match accsync.decided_snapshot {
                    None => old(self).st().compacted_idx <= accsync.sync_idx as int
                        && accsync.sync_idx as int <= old(self).vlen()
                        && accsync.decided_idx as int <= accsync.sync_idx as int
                        + accsync.suffix@.len() && accsync.sync_idx as int + accsync.suffix@.len()
                        <= u64::MAX,
                    Some(_) => S::use_snapshots_spec() && accsync.decided_idx as int >= old(self).vlen() && accsync.decided_idx as int + accsync.suffix@.len() <= u64::MAX,
                }
            }),
        ensures
            r is Ok && !old(self).acceptsync_gate(accsync.n) ==> *final(self) == *old(self),
            r is Ok && old(self).acceptsync_gate(accsync.n) ==> acceptsync_applied(
                *old(self),
                accsync,
                from,
                *final(self),
            ) && final(self).inv(),
            r is Err ==> final(self).st().promise == old(self).st().promise,
            (r matches Err(f) && f.restored && final(self).state == old(self).state) ==> final(self).st().accepted_round == old(self).st().accepted_round,
    {
        let promise = match self.internal_storage.get_promise() {
            Ok(p) => p,
            Err(_) => {
                return Err(FatalErr { restored: true });
            },
        };
        if promise == accsync.n && self.state.0 == Role::Follower && self.state.1
            == Phase::Prepare {
            let old_decided_idx = match self.internal_storage.get_decided_idx() {
                Ok(d) => d,
                Err(_) => {
                    return Err(FatalErr { restored: true });
                },
            };
            let old_accepted_round = match self.internal_storage.get_accepted_round() {
                Ok(b) => b,
                Err(_) => {
                    return Err(FatalErr { restored: true });
                },
            };
            if let Err(_) = self.internal_storage.set_accepted_round(accsync.n) {
                return Err(FatalErr { restored: true });
            }
            let result = self.internal_storage.set_decided_idx(accsync.decided_idx);
            let mut plan: Vec<RollbackValue> = Vec::new();
            plan.push(RollbackValue::AcceptedRound(old_accepted_round));
            proof {
                lemma_apply_rollbacks_one(
                    self.st(),
                    RollbackValue::AcceptedRound(old_accepted_round),
                );
            }
            self.internal_storage.rollback_if_err(&result, plan)?;
            let accepted = match accsync.decided_snapshot {
                Some(s) => {
                    let result = match s {
                        SnapshotType::Complete(c) => self.internal_storage.set_snapshot(
                            accsync.decided_idx,
                            c,
                        ),
                        SnapshotType::Delta(d) => self.internal_storage.merge_snapshot(
                            accsync.decided_idx,
                            d,
                        ),
                    };
                    let mut plan: Vec<RollbackValue> = Vec::new();
                    plan.push(RollbackValue::AcceptedRound(old_accepted_round));
                    plan.push(RollbackValue::DecidedIdx(old_decided_idx));
                    proof {
                        lemma_apply_rollbacks_two(
                            self.st(),
                            RollbackValue::AcceptedRound(old_accepted_round),
                            RollbackValue::DecidedIdx(old_decided_idx),
                        );
                    }
                    self.internal_storage.rollback_if_err(&result, plan)?;
                    let accepted_idx = match self.internal_storage.append_entries(accsync.suffix) {
                        Ok(l) => l,
                        Err(_) => {
                            let rb = self.internal_storage.single_rollback(
                                RollbackValue::AcceptedRound(old_accepted_round),
                            );
                            return Err(FatalErr { restored: rb.is_ok() });
                        },
                    };
                    proof {
                        assert(self.st().log =~= accsync.suffix@);
                    }
                    Accepted { n: accsync.n, accepted_idx }
                },
                None => {
                    // no snapshot, only the suffix
                    let accepted_idx = match self.internal_storage.append_on_prefix(
                        accsync.sync_idx,
                        accsync.suffix,
                    ) {
                        Ok(l) => l,
                        Err(_) => {
                            let mut plan: Vec<RollbackValue> = Vec::new();
                            plan.push(RollbackValue::AcceptedRound(old_accepted_round));
                            plan.push(RollbackValue::DecidedIdx(old_decided_idx));
                            proof {
                                lemma_apply_rollbacks_two(
                                    self.st(),
                                    RollbackValue::AcceptedRound(old_accepted_round),
                                    RollbackValue::DecidedIdx(old_decided_idx),
                                );
                            }
                            let rb = self.internal_storage.rollback(plan);
                            return Err(FatalErr { restored: rb.is_ok() });
                        },
                    };
                    Accepted { n: accsync.n, accepted_idx }
                },
            };
            self.state = (Role::Follower, Phase::Accept);
            self.current_seq_num = accsync.seq_num;
            let cached_idx = self.outgoing.len();
            self.latest_accepted_meta = Some((accsync.n, cached_idx));
            self.outgoing.push(
                PaxosMessage { from: self.pid, to: from, msg: PaxosMsg::Accepted(accepted) },
            );
            match accsync.stopsign {
                Some(ss) => {
                    let install = match self.internal_storage.get_stopsign() {
                        Ok(o) => match o {
                            Some(e) => !e.decided,
                            None => true,
                        },
                        Err(_) => {
                            return Err(FatalErr { restored: true });
                        },
                    };
                    if install {
                        if let Err(_) = self.accept_stopsign(ss) {
                            return Err(FatalErr { restored: true });
                        }
                    }
                    self.outgoing.push(
                        PaxosMessage {
                            from: self.pid,
                            to: from,
                            msg: PaxosMsg::AcceptedStopSign(AcceptedStopSign { n: accsync.n }),
                        },
                    );
                },
                None => {
                    self.forward_pending_proposals();
                },
            }
            Ok(())
        } else {
            Ok(())
        }
    }
}

/// After a gated `handle_acceptsync(accsync, from)` that completed: the
/// accepted round and decided index follow the leader's, the log holds the
/// synchronized entries (after the snapshot install, when one was sent),
/// the stop-sign is installed unless a decided one is already in place,
/// the follower stands in the accept phase with the session's first
/// sequence number, and an `Accepted` (plus `AcceptedStopSign` or
/// forwarded proposals) is queued.
pub open spec fn acceptsync_applied<I, T, S>(
    pre: SequencePaxos<I, T, S>,
    accsync: AcceptSync<T, S>,
    from: NodeId,
    post: SequencePaxos<I, T, S>,
) -> bool where I: Storage<T, S>, S: Snapshot<T> {
    let st0 = pre.st();
    let n = accsync.n;
    let idx = accsync.decided_idx as int;
    let acc_idx = (match accsync.decided_snapshot {
        None => accsync.sync_idx as int,
        Some(_) => idx,
    }) + accsync.suffix@.len();
    &&& post.st().promise == st0.promise
    &&& post.st().accepted_round == n
    &&& post.st().decided_idx == idx
    &&& (match accsync.decided_snapshot {
        None => post.st().log == st0.log.take(accsync.sync_idx - st0.compacted_idx)
            + accsync.suffix@ && post.st().compacted_idx == st0.compacted_idx && post.st().snapshot
            == st0.snapshot,
        Some(_) => post.st().log == accsync.suffix@ && post.st().compacted_idx == (if idx
            > st0.compacted_idx {
            idx
        } else {
            st0.compacted_idx
        }) && (idx > st0.compacted_idx ==> post.st().snapshot is Some) && (idx <= st0.compacted_idx
            ==> post.st().snapshot == st0.snapshot),
    })
    &&& (match accsync.stopsign {
        Some(ss) => post.st().stopsign == (if st0.ss_decided() {
            st0.stopsign
        } else {
            Some(StopSignEntryView { stopsign: ss@, decided: false })
        }),
        None => post.st().stopsign == st0.stopsign,
    })
    &&& post.state == (Role::Follower, Phase::Accept)
    &&& post.current_seq_num == accsync.seq_num
    &&& post.leader == pre.leader
    &&& post.pid == pre.pid
    &&& post.cached_promise == pre.cached_promise
    &&& (post.latest_accepted_meta matches Some((b, i)) && b == n && i as int
        == pre.outgoing@.len())
    &&& post.pending_proposals@ == (if accsync.stopsign is Some {
        pre.pending_proposals@
    } else {
        Seq::<T>::empty()
    })
    &&& ({
        let m0 = PaxosMessage {
            from: pre.pid,
            to: from,
            msg: PaxosMsg::Accepted(Accepted { n, accepted_idx: acc_idx as u64 }),
        };
        match accsync.stopsign {
            Some(_) => post.outgoing@ == pre.outgoing@.push(m0).push(
                PaxosMessage {
                    from: pre.pid,
                    to: from,
                    msg: PaxosMsg::AcceptedStopSign(AcceptedStopSign { n }),
                },
            ),
            None => (if pre.pending_proposals@.len() > 0 {
                post.outgoing@ == pre.outgoing@.push(m0).push(
                    PaxosMessage {
                        from: pre.pid,
                        to: pre.leader.pid,
                        msg: PaxosMsg::ProposalForward(pre.pending_proposals),
                    },
                )
            } else {
                post.outgoing@ == pre.outgoing@.push(m0)
            }),
        }
    })
}

impl<I, T, S> SequencePaxos<I, T, S> where I: Storage<T, S>, S: Snapshot<T> {
    /// Handles the leader's steady-state `AcceptDecide` while promised in
    /// the accept phase. The sequence number is classified first: the
    /// expected successor commits, and so does the first of a new session
    /// (a pseudo-AcceptSync for prepare-less reconfigurations, which also
    /// installs the accepted round and forwards pending proposals); a
    /// detected gap triggers a re-sync signal; an outdated message is a
    /// no-op. Committing advances the decided index when the message's is
    /// higher, appends the entries, and advances the queued `Accepted`.
    pub fn handle_acceptdecide(&mut self, acc: AcceptDecide<T>) -> (r: Result<(), FatalErr>)
        requires
            old(self).inv(),
            old(self).accept_gate(acc.n) ==> ({
                let cls = old(self).current_seq_num.check_spec(acc.seq_num);
                (cls == MessageStatus::First || cls == MessageStatus::Expected) ==> ({
                    &&& old(self).st().decided_idx <= old(self).vlen()
                    &&& old(self).vlen() + acc.entries@.len() <= u64::MAX
                    &&& old(self).st().compacted_idx <= acc.decided_idx as int
                    &&& acc.decided_idx as int <= old(self).vlen() + acc.entries@.len()
                })
            }),
        ensures
            r is Ok && !old(self).accept_gate(acc.n) ==> *final(self) == *old(self),
            r is Ok && old(self).accept_gate(acc.n) ==> ({
                let cls = old(self).current_seq_num.check_spec(acc.seq_num);
                match cls {
                    MessageStatus::Outdated => *final(self) == *old(self),
                    MessageStatus::DroppedPreceding => reconnected_post(
                        *old(self),
                        acc.n.pid,
                        *final(self),
                    ) && final(self).inv(),
                    _ => acceptdecide_applied(*old(self), acc, *final(self)) && final(self).inv(),
                }
            }),
            r is Err ==> final(self).st().promise == old(self).st().promise && final(self).st().log
                == old(self).st().log && final(self).st().stopsign == old(self).st().stopsign,
            (r matches Err(f) && f.restored) ==> final(self).st().accepted_round == old(self).st().accepted_round && final(self).st().decided_idx == old(self).st().decided_idx,
    {
        let promise = match self.internal_storage.get_promise() {
            Ok(p) => p,
            Err(_) => {
                return Err(FatalErr { restored: true });
            },
        };
        if promise == acc.n && self.state.0 == Role::Follower && self.state.1 == Phase::Accept {
            let msg_status = self.current_seq_num.check_msg_status(acc.seq_num);
            let old_decided_idx = match self.internal_storage.get_decided_idx() {
                Ok(d) => d,
                Err(_) => {
                    return Err(FatalErr { restored: true });
                },
            };
            let old_accepted_round: Option<Ballot> = match msg_status {
                MessageStatus::First => {
                    // pseudo-AcceptSync for reconfigurations
                    let oar = match self.internal_storage.get_accepted_round() {
                        Ok(b) => b,
                        Err(_) => {
                            return Err(FatalErr { restored: true });
                        },
                    };
                    if let Err(_) = self.internal_storage.set_accepted_round(acc.n) {
                        return Err(FatalErr { restored: true });
                    }
                    self.forward_pending_proposals();
                    self.current_seq_num = acc.seq_num;
                    Some(oar)
                },
                MessageStatus::Expected => {
                    self.current_seq_num = acc.seq_num;
                    None
                },
                MessageStatus::DroppedPreceding => {
                    self.reconnected(acc.n.pid);
                    return Ok(());
                },
                MessageStatus::Outdated => {
                    return Ok(());
                },
            };
            // handle decide
            if acc.decided_idx > old_decided_idx {
                let result = self.internal_storage.set_decided_idx(acc.decided_idx);
                if result.is_err() {
                    let rb = match old_accepted_round {
                        Some(b) => self.internal_storage.single_rollback(
                            RollbackValue::AcceptedRound(b),
                        ),
                        None => Ok(()),
                    };
                    return Err(FatalErr { restored: rb.is_ok() });
                }
            }
            let result = self.accept_entries(acc.n, acc.entries);
            if result.is_err() {
                let rb = match old_accepted_round {
                    Some(b) => {
                        let mut plan: Vec<RollbackValue> = Vec::new();
                        plan.push(RollbackValue::AcceptedRound(b));
                        plan.push(RollbackValue::DecidedIdx(old_decided_idx));
                        proof {
                            lemma_apply_rollbacks_two(
                                self.st(),
                                RollbackValue::AcceptedRound(b),
                                RollbackValue::DecidedIdx(old_decided_idx),
                            );
                        }
                        self.internal_storage.rollback(plan)
                    },
                    None => self.internal_storage.single_rollback(
                        RollbackValue::DecidedIdx(old_decided_idx),
                    ),
                };
                return Err(FatalErr { restored: rb.is_ok() });
            }
            Ok(())
        } else {
            Ok(())
        }
    }

    /// Handles the leader's `AcceptStopSign` while promised in the accept
    /// phase, classifying the sequence number exactly as `AcceptDecide`
    /// does (`First` also installs the round and forwards pending
    /// proposals). Installs the stop-sign undecided and acknowledges with
    /// `AcceptedStopSign` to the current leader.
    pub fn handle_accept_stopsign(&mut self, acc_ss: AcceptStopSign) -> (r: Result<(), FatalErr>)
        requires
            old(self).inv(),
            old(self).accept_gate(acc_ss.n) ==> ({
                let cls = old(self).current_seq_num.check_spec(acc_ss.seq_num);
                (cls == MessageStatus::First || cls == MessageStatus::Expected) ==> old(self).st().decided_idx <= old(self).vlen()
            }),
        ensures
            r is Ok && !old(self).accept_gate(acc_ss.n) ==> *final(self) == *old(self),
            r is Ok && old(self).accept_gate(acc_ss.n) ==> ({
                let cls = old(self).current_seq_num.check_spec(acc_ss.seq_num);
                match cls {
                    MessageStatus::Outdated => *final(self) == *old(self),
                    MessageStatus::DroppedPreceding => reconnected_post(
                        *old(self),
                        acc_ss.n.pid,
                        *final(self),
                    ) && final(self).inv(),
                    _ => accept_stopsign_applied(*old(self), acc_ss, *final(self)) && final(self).inv(),
                }
            }),
            r is Err ==> final(self).st().promise == old(self).st().promise && final(self).st().log
                == old(self).st().log && final(self).st().decided_idx == old(self).st().decided_idx,
    {
        let promise = match self.internal_storage.get_promise() {
            Ok(p) => p,
            Err(_) => {
                return Err(FatalErr { restored: true });
            },
        };
        if promise == acc_ss.n && self.state.0 == Role::Follower && self.state.1
            == Phase::Accept {
            let msg_status = self.current_seq_num.check_msg_status(acc_ss.seq_num);
            match msg_status {
                MessageStatus::First => {
                    // pseudo-AcceptSync for prepare-less reconfigurations
                    if let Err(_) = self.internal_storage.set_accepted_round(acc_ss.n) {
                        return Err(FatalErr { restored: true });
                    }
                    self.forward_pending_proposals();
                    self.current_seq_num = acc_ss.seq_num;
                },
                MessageStatus::Expected => {
                    self.current_seq_num = acc_ss.seq_num;
                },
                MessageStatus::DroppedPreceding => {
                    self.reconnected(acc_ss.n.pid);
                    return Ok(());
                },
                MessageStatus::Outdated => {
                    return Ok(());
                },
            }
            if let Err(_) = self.accept_stopsign(acc_ss.ss) {
                return Err(FatalErr { restored: true });
            }
            let to = self.leader.pid;
            self.outgoing.push(
                PaxosMessage {
                    from: self.pid,
                    to,
                    msg: PaxosMsg::AcceptedStopSign(AcceptedStopSign { n: acc_ss.n }),
                },
            );
            Ok(())
        } else {
            Ok(())
        }
    }

    /// Handles the leader's `Decide` in the accept phase. `First` cannot
    /// start a session with a decide, so it is dropped; the expected
    /// successor persists the new decided index; a gap triggers re-sync;
    /// an outdated message is a no-op.
    pub fn handle_decide(&mut self, dec: Decide) -> (r: Result<(), FatalErr>)
        requires
            old(self).inv(),
            old(self).decide_gate(dec.n) ==> ({
                let cls = old(self).current_seq_num.check_spec(dec.seq_num);
                cls == MessageStatus::Expected ==> old(self).st().compacted_idx
                    <= dec.decided_idx as int && (dec.decided_idx as int <= old(self).vlen() || (
                dec.decided_idx as int == old(self).vlen() + 1 && old(self).st().ss_decided()))
            }),
        ensures
            r is Ok && !old(self).decide_gate(dec.n) ==> *final(self) == *old(self),
            r is Ok && old(self).decide_gate(dec.n) ==> ({
                let cls = old(self).current_seq_num.check_spec(dec.seq_num);
                match cls {
                    MessageStatus::Expected => decide_applied(*old(self), dec, *final(self))
                        && final(self).inv(),
                    MessageStatus::DroppedPreceding => reconnected_post(
                        *old(self),
                        dec.n.pid,
                        *final(self),
                    ) && final(self).inv(),
                    _ => *final(self) == *old(self),
                }
            }),
            r is Err ==> final(self).st() == old(self).st(),
    {
        let promise = match self.internal_storage.get_promise() {
            Ok(p) => p,
            Err(_) => {
                return Err(FatalErr { restored: true });
            },
        };
        if promise == dec.n && self.state.1 == Phase::Accept {
            let msg_status = self.current_seq_num.check_msg_status(dec.seq_num);
            match msg_status {
                MessageStatus::First => {
                    // a decide cannot be the first message in a sequence
                    return Ok(());
                },
                MessageStatus::Expected => {
                    self.current_seq_num = dec.seq_num;
                },
                MessageStatus::DroppedPreceding => {
                    self.reconnected(dec.n.pid);
                    return Ok(());
                },
                MessageStatus::Outdated => {
                    return Ok(());
                },
            }
            if let Err(_) = self.internal_storage.set_decided_idx(dec.decided_idx) {
                return Err(FatalErr { restored: true });
            }
            Ok(())
        } else {
            Ok(())
        }
    }

    /// Handles the leader's `DecideStopSign` in the accept phase, with the
    /// same classification as `Decide` (`First` is invalid). Marks the
    /// stored stop-sign decided: the decided index moves one past the
    /// virtual log end first, and a failed stop-sign write rolls it back.
    pub fn handle_decide_stopsign(&mut self, dec: DecideStopSign) -> (r: Result<(), FatalErr>)
        requires
            old(self).inv(),
            old(self).decide_gate(dec.n) ==> ({
                let cls = old(self).current_seq_num.check_spec(dec.seq_num);
                cls == MessageStatus::Expected ==> old(self).st().stopsign is Some && old(self).vlen() + 1 <= u64::MAX
            }),
        ensures
            r is Ok && !old(self).decide_gate(dec.n) ==> *final(self) == *old(self),
            r is Ok && old(self).decide_gate(dec.n) ==> ({
                let cls = old(self).current_seq_num.check_spec(dec.seq_num);
                match cls {
                    MessageStatus::Expected => decide_stopsign_applied(*old(self), dec, *final(self))
                        && final(self).inv(),
                    MessageStatus::DroppedPreceding => reconnected_post(
                        *old(self),
                        dec.n.pid,
                        *final(self),
                    ) && final(self).inv(),
                    _ => *final(self) == *old(self),
                }
            }),
            r is Err ==> final(self).st().promise == old(self).st().promise && final(self).st().log
                == old(self).st().log && final(self).st().accepted_round == old(self).st().accepted_round && final(self).st().stopsign == old(self).st().stopsign,
            (r matches Err(f) && f.restored) ==> final(self).st().decided_idx == old(self).st().decided_idx,
    {
        let promise = match self.internal_storage.get_promise() {
            Ok(p) => p,
            Err(_) => {
                return Err(FatalErr { restored: true });
            },
        };
        if promise == dec.n && self.state.1 == Phase::Accept {
            let msg_status = self.current_seq_num.check_msg_status(dec.seq_num);
            match msg_status {
                MessageStatus::First => {
                    // a decide cannot be the first message in a sequence
                    return Ok(());
                },
                MessageStatus::Expected => {
                    self.current_seq_num = dec.seq_num;
                },
                MessageStatus::DroppedPreceding => {
                    self.reconnected(dec.n.pid);
                    return Ok(());
                },
                MessageStatus::Outdated => {
                    return Ok(());
                },
            }
            let mut ss = match self.internal_storage.get_stopsign() {
                Ok(Some(e)) => e,
                Ok(None) => {
                    // a decide for a stop-sign that was never installed is
                    // ruled out by this handler's precondition
                    proof {
                        assert(false);
                    }
                    return Ok(());
                },
                Err(_) => {
                    return Err(FatalErr { restored: true });
                },
            };
            ss.decided = true;
            let log_len = match self.internal_storage.get_log_len() {
                Ok(l) => l,
                Err(_) => {
                    return Err(FatalErr { restored: true });
                },
            };
            let old_decided_idx = match self.internal_storage.get_decided_idx() {
                Ok(d) => d,
                Err(_) => {
                    return Err(FatalErr { restored: true });
                },
            };
            if let Err(_) = self.internal_storage.set_decided_idx(log_len + 1) {
                return Err(FatalErr { restored: true });
            }
            // the stop-sign is written again, now with the decided flag
            let result = self.internal_storage.set_stopsign(ss);
            if result.is_err() {
                let rb = self.internal_storage.single_rollback(
                    RollbackValue::DecidedIdx(old_decided_idx),
                );
                return Err(FatalErr { restored: rb.is_ok() });
            }
            Ok(())
        } else {
            Ok(())
        }
    }
}

/// After a gated, committed `handle_acceptdecide(acc)`: the entries stand
/// appended, the decided index took the message's value when higher, the
/// tracker advanced to the message's sequence number, a `First` also
/// installed the round and forwarded the pending proposals, and the
/// acknowledged accepted index landed in the queue, coalesced into the
/// tracked `Accepted` of the same round when one is still owned.
pub open spec fn acceptdecide_applied<I, T, S>(
    pre: SequencePaxos<I, T, S>,
    acc: AcceptDecide<T>,
    post: SequencePaxos<I, T, S>,
) -> bool where I: Storage<T, S>, S: Snapshot<T> {
    let st0 = pre.st();
    let first = pre.current_seq_num.check_spec(acc.seq_num) == MessageStatus::First;
    let d1 = if acc.decided_idx as int > st0.decided_idx {
        acc.decided_idx as int
    } else {
        st0.decided_idx
    };
    let base = if first && pre.pending_proposals@.len() > 0 {
        pre.outgoing@.push(
            PaxosMessage {
                from: pre.pid,
                to: pre.leader.pid,
                msg: PaxosMsg::ProposalForward(pre.pending_proposals),
            },
        )
    } else {
        pre.outgoing@
    };
    &&& post.st().promise == st0.promise
    &&& post.st().accepted_round == (if first {
        acc.n
    } else {
        st0.accepted_round
    })
    &&& post.st().decided_idx == d1
    &&& post.st().log == st0.log + acc.entries@
    &&& post.st().compacted_idx == st0.compacted_idx
    &&& post.st().stopsign == st0.stopsign
    &&& post.st().snapshot == st0.snapshot
    &&& post.current_seq_num == acc.seq_num
    &&& post.state == pre.state
    &&& post.leader == pre.leader
    &&& post.pid == pre.pid
    &&& post.cached_promise == pre.cached_promise
    &&& post.pending_proposals@ == (if first {
        Seq::<T>::empty()
    } else {
        pre.pending_proposals@
    })
    &&& accepted_queued(pre, base, acc.n, st0.vlen() + acc.entries@.len(), post)
}

/// After a gated, committed `handle_accept_stopsign(acc_ss)`: the
/// stop-sign stands installed undecided, the tracker advanced, a `First`
/// also installed the round and forwarded the pending proposals, and an
/// `AcceptedStopSign` is queued to the leader.
pub open spec fn accept_stopsign_applied<I, T, S>(
    pre: SequencePaxos<I, T, S>,
    acc_ss: AcceptStopSign,
    post: SequencePaxos<I, T, S>,
) -> bool where I: Storage<T, S>, S: Snapshot<T> {
    let st0 = pre.st();
    let first = pre.current_seq_num.check_spec(acc_ss.seq_num) == MessageStatus::First;
    let base = if first && pre.pending_proposals@.len() > 0 {
        pre.outgoing@.push(
            PaxosMessage {
                from: pre.pid,
                to: pre.leader.pid,
                msg: PaxosMsg::ProposalForward(pre.pending_proposals),
            },
        )
    } else {
        pre.outgoing@
    };
    &&& post.st().promise == st0.promise
    &&& post.st().accepted_round == (if first {
        acc_ss.n
    } else {
        st0.accepted_round
    })
    &&& post.st().decided_idx == st0.decided_idx
    &&& post.st().log == st0.log
    &&& post.st().compacted_idx == st0.compacted_idx
    &&& post.st().stopsign == Some(StopSignEntryView { stopsign: acc_ss.ss@, decided: false })
    &&& post.st().snapshot == st0.snapshot
    &&& post.current_seq_num == acc_ss.seq_num
    &&& post.state == pre.state
    &&& post.leader == pre.leader
    &&& post.pid == pre.pid
    &&& post.cached_promise == pre.cached_promise
    &&& post.latest_accepted_meta == pre.latest_accepted_meta
    &&& post.pending_proposals@ == (if first {
        Seq::<T>::empty()
    } else {
        pre.pending_proposals@
    })
    &&& post.outgoing@ == base.push(
        PaxosMessage {
            from: pre.pid,
            to: pre.leader.pid,
            msg: PaxosMsg::AcceptedStopSign(AcceptedStopSign { n: acc_ss.n }),
        },
    )
}

/// After a gated `handle_decide(dec)` whose sequence number was the
/// expected successor: only the decided index and the tracker moved.
pub open spec fn decide_applied<I, T, S>(
    pre: SequencePaxos<I, T, S>,
    dec: Decide,
    post: SequencePaxos<I, T, S>,
) -> bool where I: Storage<T, S>, S: Snapshot<T> {
    &&& post.st() == pre.st().with_decided_idx(dec.decided_idx as int)
    &&& post.current_seq_num == dec.seq_num
    &&& post.state == pre.state
    &&& post.leader == pre.leader
    &&& post.pid == pre.pid
    &&& post.cached_promise == pre.cached_promise
    &&& post.latest_accepted_meta == pre.latest_accepted_meta
    &&& post.pending_proposals == pre.pending_proposals
    &&& post.outgoing == pre.outgoing
}

/// After a gated `handle_decide_stopsign(dec)` whose sequence number was
/// the expected successor: the stop-sign is decided, the decided index
/// stands one past the virtual log end, and the tracker advanced.
pub open spec fn decide_stopsign_applied<I, T, S>(
    pre: SequencePaxos<I, T, S>,
    dec: DecideStopSign,
    post: SequencePaxos<I, T, S>,
) -> bool where I: Storage<T, S>, S: Snapshot<T> {
    let st0 = pre.st();
    &&& post.st().promise == st0.promise
    &&& post.st().accepted_round == st0.accepted_round
    &&& post.st().decided_idx == st0.vlen() + 1
    &&& post.st().log == st0.log
    &&& post.st().compacted_idx == st0.compacted_idx
    &&& (st0.stopsign matches Some(e) && post.st().stopsign == Some(
        StopSignEntryView { stopsign: e.stopsign, decided: true },
    ))
    &&& post.st().snapshot == st0.snapshot
    &&& post.current_seq_num == dec.seq_num
    &&& post.state == pre.state
    &&& post.leader == pre.leader
    &&& post.pid == pre.pid
    &&& post.cached_promise == pre.cached_promise
    &&& post.latest_accepted_meta == pre.latest_accepted_meta
    &&& post.pending_proposals == pre.pending_proposals
    &&& post.outgoing == pre.outgoing
}

/// After `reconnected(pid)`: storage untouched, a `PrepareReq` queued to
/// the peer, and the phase dropped to `Recover` when the peer is the
/// current leader.
pub open spec fn reconnected_post<I, T, S>(
    pre: SequencePaxos<I, T, S>,
    pid: NodeId,
    post: SequencePaxos<I, T, S>,
) -> bool where I: Storage<T, S>, S: Snapshot<T> {
    &&& post.st() == pre.st()
    &&& post.state == (if pid == pre.leader.pid {
        (Role::Follower, Phase::Recover)
    } else {
        pre.state
    })
    &&& post.outgoing@ == pre.outgoing@.push(
        PaxosMessage { from: pre.pid, to: pid, msg: PaxosMsg::PrepareReq },
    )
    &&& post.pid == pre.pid
    &&& post.leader == pre.leader
    &&& post.current_seq_num == pre.current_seq_num
    &&& post.cached_promise == pre.cached_promise
    &&& post.latest_accepted_meta == pre.latest_accepted_meta
    &&& post.pending_proposals == pre.pending_proposals
}

/// How an acknowledged accepted index `new_acc_idx` for round `n` lands in
/// the outgoing queue `base`: advanced in place in the tracked `Accepted`
/// of the same round, else appended as a fresh one and tracked. At most
/// one `Accepted` per round is ever added this way.
pub open spec fn accepted_queued<I, T, S>(
    pre: SequencePaxos<I, T, S>,
    base: Seq<PaxosMessage<T, S>>,
    n: Ballot,
    new_acc_idx: int,
    post: SequencePaxos<I, T, S>,
) -> bool where I: Storage<T, S>, S: Snapshot<T> {
    match pre.latest_accepted_meta {
        Some((r0, i)) => if r0 == n {
            &&& post.outgoing@.len() == base.len()
            &&& (forall|k: int| 0 <= k < base.len() && k != i as int ==> post.outgoing@[k]
                == base[k])
            &&& post.outgoing@[i as int].from == base[i as int].from
            &&& post.outgoing@[i as int].to == base[i as int].to
            &&& (post.outgoing@[i as int].msg matches PaxosMsg::Accepted(a) && a.n == n
                && a.accepted_idx as int == new_acc_idx)
            &&& post.latest_accepted_meta == pre.latest_accepted_meta
        } else {
            accepted_pushed(pre, base, n, new_acc_idx, post)
        },
        None => accepted_pushed(pre, base, n, new_acc_idx, post),
    }
}

/// A fresh `Accepted{n, new_acc_idx}` appended to `base` and tracked.
pub open spec fn accepted_pushed<I, T, S>(
    pre: SequencePaxos<I, T, S>,
    base: Seq<PaxosMessage<T, S>>,
    n: Ballot,
    new_acc_idx: int,
    post: SequencePaxos<I, T, S>,
) -> bool where I: Storage<T, S>, S: Snapshot<T> {
    &&& post.outgoing@ == base.push(
        PaxosMessage {
            from: pre.pid,
            to: pre.leader.pid,
            msg: PaxosMsg::Accepted(Accepted { n, accepted_idx: new_acc_idx as u64 }),
        },
    )
    &&& (post.latest_accepted_meta matches Some((b, i)) && b == n && i as int == base.len())
}

} // verus!

//! End-to-end follower scenarios: prepare, catch-up, steady-state
//! replication with coalesced acknowledgments, drop detection, and
//! stop-sign handling.

use omnipaxos::ballot::Ballot;
use omnipaxos::follower::{Phase, Role, SequencePaxos};
use omnipaxos::memory_storage::MemoryStorage;
use omnipaxos::messages::{
    AcceptDecide, AcceptStopSign, AcceptSync, Decide, DecideStopSign, PaxosMsg, Prepare,
};
use omnipaxos::storage::{Snapshot, StopSign, Storage};
use omnipaxos::util::SequenceNumber;

/// A snapshot for tests: the running sum of the snapshotted entries.
#[derive(Debug)]
struct SumSnapshot {
    sum: u64,
}

impl Snapshot<u64> for SumSnapshot {
    fn use_snapshots_spec() -> bool {
        // specification-only item of the trait; never called at runtime
        true
    }

    fn create(entries: &[u64]) -> Self {
        SumSnapshot { sum: entries.iter().sum() }
    }

    fn merge(&mut self, delta: Self) {
        self.sum += delta.sum;
    }

    fn use_snapshots() -> bool {
        true
    }

    fn dup(&self) -> Self {
        SumSnapshot { sum: self.sum }
    }
}

fn ballot(n: u32, pid: u64) -> Ballot {
    Ballot { n, pid }
}

fn seq_num(session: u64, counter: u64) -> SequenceNumber {
    SequenceNumber { session, counter }
}

/// The base state of the scenarios: `pid = 2`, `promise = (3,1)`,
/// `accepted_round = (3,1)`, log `[1, 2, 3]`, `decided_idx = 2`,
/// `compacted_idx = 0`, no stop-sign.
fn base_replica() -> SequencePaxos<MemoryStorage<u64, SumSnapshot>, u64, SumSnapshot> {
    let mut storage: MemoryStorage<u64, SumSnapshot> = MemoryStorage::new();
    storage.set_promise(ballot(3, 1)).unwrap();
    storage.set_accepted_round(ballot(3, 1)).unwrap();
    storage.append_entries(vec![1, 2, 3]).unwrap();
    storage.set_decided_idx(2).unwrap();
    SequencePaxos::with(2, storage)
}

fn leader() -> Ballot {
    ballot(5, 1)
}

#[test]
fn accept_higher_prepare() {
    let mut s = base_replica();
    s.handle_prepare(
        Prepare { n: leader(), n_accepted: ballot(3, 1), accepted_idx: 3, decided_idx: 2 },
        1,
    )
    .unwrap();
    assert_eq!(s.state, (Role::Follower, Phase::Prepare));
    assert_eq!(s.internal_storage.get_promise().unwrap(), leader());
    assert_eq!(s.outgoing.len(), 1);
    assert_eq!(s.outgoing[0].from, 2);
    assert_eq!(s.outgoing[0].to, 1);
    match &s.outgoing[0].msg {
        PaxosMsg::Promise(p) => {
            assert_eq!(p.n, leader());
            assert_eq!(p.n_accepted, ballot(3, 1));
            assert!(p.decided_snapshot.is_none());
            assert!(p.suffix.is_empty());
            assert_eq!(p.decided_idx, 2);
            assert_eq!(p.accepted_idx, 3);
            assert!(p.stopsign.is_none());
        },
        m => panic!("expected a promise, got {:?}", m),
    }
    // the same promise is cached for replay
    assert!(s.cached_promise.is_some());
}

#[test]
fn prepare_for_lower_round_is_ignored() {
    let mut s = base_replica();
    s.handle_prepare(
        Prepare { n: ballot(2, 9), n_accepted: ballot(0, 0), accepted_idx: 0, decided_idx: 0 },
        9,
    )
    .unwrap();
    assert_eq!(s.state, (Role::Follower, Phase::Recover));
    assert_eq!(s.internal_storage.get_promise().unwrap(), ballot(3, 1));
    assert!(s.outgoing.is_empty());
}

fn synced_replica() -> SequencePaxos<MemoryStorage<u64, SumSnapshot>, u64, SumSnapshot> {
    let mut s = base_replica();
    s.handle_prepare(
        Prepare { n: leader(), n_accepted: ballot(3, 1), accepted_idx: 3, decided_idx: 2 },
        1,
    )
    .unwrap();
    s.take_outgoing();
    s.handle_acceptsync(
        AcceptSync {
            n: leader(),
            decided_snapshot: None,
            suffix: vec![4, 5],
            sync_idx: 3,
            decided_idx: 2,
            stopsign: None,
            seq_num: seq_num(1, 1),
        },
        1,
    )
    .unwrap();
    s
}

#[test]
fn acceptsync_with_no_snapshot() {
    let mut s = synced_replica();
    assert_eq!(s.internal_storage.get_accepted_round().unwrap(), leader());
    assert_eq!(s.internal_storage.get_entries(0, 5).unwrap(), vec![1, 2, 3, 4, 5]);
    assert_eq!(s.internal_storage.get_decided_idx().unwrap(), 2);
    assert_eq!(s.state, (Role::Follower, Phase::Accept));
    assert_eq!(s.current_seq_num, seq_num(1, 1));
    assert_eq!(s.latest_accepted_meta, Some((leader(), 0)));
    assert_eq!(s.outgoing.len(), 1);
    match &s.outgoing[0].msg {
        PaxosMsg::Accepted(a) => {
            assert_eq!(a.n, leader());
            assert_eq!(a.accepted_idx, 5);
        },
        m => panic!("expected an accepted, got {:?}", m),
    }
}

#[test]
fn acceptdecide_coalesces_accepted() {
    let mut s = synced_replica();
    s.handle_acceptdecide(
        AcceptDecide { n: leader(), seq_num: seq_num(1, 2), decided_idx: 4, entries: vec![6] },
    )
    .unwrap();
    assert_eq!(s.internal_storage.get_decided_idx().unwrap(), 4);
    assert_eq!(s.internal_storage.get_entries(0, 6).unwrap(), vec![1, 2, 3, 4, 5, 6]);
    // no new message was enqueued: the queued Accepted was advanced in place
    assert_eq!(s.outgoing.len(), 1);
    match &s.outgoing[0].msg {
        PaxosMsg::Accepted(a) => {
            assert_eq!(a.n, leader());
            assert_eq!(a.accepted_idx, 6);
        },
        m => panic!("expected an accepted, got {:?}", m),
    }
}

#[test]
fn dropped_preceding_triggers_resync() {
    let mut s = synced_replica();
    s.handle_acceptdecide(
        AcceptDecide { n: leader(), seq_num: seq_num(1, 2), decided_idx: 4, entries: vec![6] },
    )
    .unwrap();
    let queued = s.outgoing.len();
    s.handle_acceptdecide(
        AcceptDecide { n: leader(), seq_num: seq_num(1, 9), decided_idx: 5, entries: vec![7] },
    )
    .unwrap();
    // no storage write happened
    assert_eq!(s.internal_storage.get_decided_idx().unwrap(), 4);
    assert_eq!(s.internal_storage.get_log_len().unwrap(), 6);
    // the follower asks the leader for a re-sync and stops committing
    assert_eq!(s.state, (Role::Follower, Phase::Recover));
    assert_eq!(s.outgoing.len(), queued + 1);
    assert!(matches!(s.outgoing[queued].msg, PaxosMsg::PrepareReq));
    assert_eq!(s.outgoing[queued].to, 1);
}

#[test]
fn outdated_acceptdecide_is_a_no_op() {
    let mut s = synced_replica();
    let msg = AcceptDecide { n: leader(), seq_num: seq_num(1, 2), decided_idx: 4, entries: vec![6] };
    s.handle_acceptdecide(msg).unwrap();
    let queued = s.outgoing.len();
    // the identical message again: classified Outdated, a no-op
    let replay =
        AcceptDecide { n: leader(), seq_num: seq_num(1, 2), decided_idx: 4, entries: vec![6] };
    s.handle_acceptdecide(replay).unwrap();
    assert_eq!(s.internal_storage.get_decided_idx().unwrap(), 4);
    assert_eq!(s.internal_storage.get_log_len().unwrap(), 6);
    assert_eq!(s.outgoing.len(), queued);
    assert_eq!(s.current_seq_num, seq_num(1, 2));
    assert_eq!(s.state, (Role::Follower, Phase::Accept));
}

#[test]
fn decide_advances_decided_index() {
    let mut s = synced_replica();
    s.handle_decide(Decide { n: leader(), seq_num: seq_num(1, 2), decided_idx: 5 }).unwrap();
    assert_eq!(s.internal_storage.get_decided_idx().unwrap(), 5);
    assert_eq!(s.current_seq_num, seq_num(1, 2));
}

#[test]
fn decide_cannot_start_a_session() {
    let mut s = synced_replica();
    // a Decide classified First is invalid and dropped
    s.handle_decide(Decide { n: leader(), seq_num: seq_num(2, 1), decided_idx: 5 }).unwrap();
    assert_eq!(s.internal_storage.get_decided_idx().unwrap(), 2);
    assert_eq!(s.current_seq_num, seq_num(1, 1));
}

#[test]
fn decide_stopsign_moves_decided_past_log_end() {
    let mut s = synced_replica();
    s.handle_acceptdecide(
        AcceptDecide { n: leader(), seq_num: seq_num(1, 2), decided_idx: 4, entries: vec![6] },
    )
    .unwrap();
    // log is [1..6] now; install the stop-sign, then decide it
    s.handle_accept_stopsign(
        AcceptStopSign {
            n: leader(),
            seq_num: seq_num(1, 3),
            ss: StopSign::with(7, vec![1, 2, 3], None),
        },
    )
    .unwrap();
    let entry = s.internal_storage.get_stopsign().unwrap().unwrap();
    assert!(!entry.decided);
    assert_eq!(entry.stopsign.config_id, 7);
    assert_eq!(entry.stopsign.nodes, vec![1, 2, 3]);
    s.handle_decide_stopsign(DecideStopSign { n: leader(), seq_num: seq_num(1, 4) }).unwrap();
    let entry = s.internal_storage.get_stopsign().unwrap().unwrap();
    assert!(entry.decided);
    assert_eq!(s.internal_storage.get_decided_idx().unwrap(), 7);
}

#[test]
fn accept_stopsign_acknowledges_to_leader() {
    let mut s = synced_replica();
    s.take_outgoing();
    s.handle_accept_stopsign(
        AcceptStopSign {
            n: leader(),
            seq_num: seq_num(1, 2),
            ss: StopSign::with(7, vec![1, 2, 3], Some(vec![9])),
        },
    )
    .unwrap();
    assert_eq!(s.outgoing.len(), 1);
    assert_eq!(s.outgoing[0].to, 1);
    match &s.outgoing[0].msg {
        PaxosMsg::AcceptedStopSign(a) => assert_eq!(a.n, leader()),
        m => panic!("expected an accepted stop-sign, got {:?}", m),
    }
}

#[test]
fn pending_proposals_forwarded_on_sync() {
    let mut s = base_replica();
    s.append_pending_proposal(41);
    s.append_pending_proposal(42);
    s.handle_prepare(
        Prepare { n: leader(), n_accepted: ballot(3, 1), accepted_idx: 3, decided_idx: 2 },
        1,
    )
    .unwrap();
    s.take_outgoing();
    s.handle_acceptsync(
        AcceptSync {
            n: leader(),
            decided_snapshot: None,
            suffix: vec![4],
            sync_idx: 3,
            decided_idx: 2,
            stopsign: None,
            seq_num: seq_num(1, 1),
        },
        1,
    )
    .unwrap();
    assert!(s.pending_proposals.is_empty());
    assert_eq!(s.outgoing.len(), 2);
    match &s.outgoing[1].msg {
        PaxosMsg::ProposalForward(ps) => assert_eq!(ps, &vec![41, 42]),
        m => panic!("expected forwarded proposals, got {:?}", m),
    }
    assert_eq!(s.outgoing[1].to, 1);
}

#[test]
fn first_acceptdecide_installs_round() {
    let mut s = synced_replica();
    // a new session without a fresh prepare: a pseudo-AcceptSync
    s.handle_acceptdecide(
        AcceptDecide { n: leader(), seq_num: seq_num(2, 1), decided_idx: 2, entries: vec![9] },
    )
    .unwrap();
    assert_eq!(s.current_seq_num, seq_num(2, 1));
    assert_eq!(s.internal_storage.get_accepted_round().unwrap(), leader());
    assert_eq!(s.internal_storage.get_log_len().unwrap(), 6);
}

#[test]
fn wrong_round_acceptdecide_is_ignored() {
    let mut s = synced_replica();
    s.handle_acceptdecide(
        AcceptDecide { n: ballot(4, 9), seq_num: seq_num(1, 2), decided_idx: 5, entries: vec![6] },
    )
    .unwrap();
    assert_eq!(s.internal_storage.get_log_len().unwrap(), 5);
    assert_eq!(s.internal_storage.get_decided_idx().unwrap(), 2);
}

#[test]
fn acceptsync_with_complete_snapshot_replaces_the_log() {
    let mut s = base_replica();
    s.handle_prepare(
        Prepare { n: leader(), n_accepted: ballot(4, 1), accepted_idx: 6, decided_idx: 5 },
        1,
    )
    .unwrap();
    s.take_outgoing();
    // the follower is far behind: the leader sends a snapshot covering
    // [0, 5) and the suffix from there
    s.handle_acceptsync(
        AcceptSync {
            n: leader(),
            decided_snapshot: Some(omnipaxos::storage::SnapshotType::Complete(SumSnapshot {
                sum: 100,
            })),
            suffix: vec![15, 16],
            sync_idx: 5,
            decided_idx: 5,
            stopsign: None,
            seq_num: seq_num(1, 1),
        },
        1,
    )
    .unwrap();
    assert_eq!(s.internal_storage.get_compacted_idx().unwrap(), 5);
    assert_eq!(s.internal_storage.get_decided_idx().unwrap(), 5);
    assert_eq!(s.internal_storage.get_log_len().unwrap(), 7);
    assert_eq!(s.internal_storage.get_entries(5, 7).unwrap(), vec![15, 16]);
    match &s.outgoing[0].msg {
        PaxosMsg::Accepted(a) => assert_eq!(a.accepted_idx, 7),
        m => panic!("expected an accepted, got {:?}", m),
    }
}

#[test]
fn acceptsync_with_delta_snapshot_merges() {
    let mut s = base_replica();
    s.handle_prepare(
        Prepare { n: leader(), n_accepted: ballot(4, 1), accepted_idx: 6, decided_idx: 5 },
        1,
    )
    .unwrap();
    s.take_outgoing();
    // a delta over what this follower misses: it is merged onto a snapshot
    // synthesized from the local log, and installed up to the leader's
    // decided index
    s.handle_acceptsync(
        AcceptSync {
            n: leader(),
            decided_snapshot: Some(omnipaxos::storage::SnapshotType::Delta(SumSnapshot {
                sum: 9,
            })),
            suffix: vec![16],
            sync_idx: 5,
            decided_idx: 5,
            stopsign: None,
            seq_num: seq_num(1, 1),
        },
        1,
    )
    .unwrap();
    assert_eq!(s.internal_storage.get_compacted_idx().unwrap(), 5);
    assert_eq!(s.internal_storage.get_decided_idx().unwrap(), 5);
    assert_eq!(s.internal_storage.get_log_len().unwrap(), 6);
    assert_eq!(s.internal_storage.get_entries(5, 6).unwrap(), vec![16]);
}

#[test]
fn prepare_with_higher_accepted_round_sends_delta_snapshot() {
    let mut storage: MemoryStorage<u64, SumSnapshot> = MemoryStorage::new();
    storage.set_promise(ballot(4, 1)).unwrap();
    storage.set_accepted_round(ballot(4, 1)).unwrap();
    storage.append_entries(vec![1, 2, 3, 4]).unwrap();
    storage.set_decided_idx(3).unwrap();
    let mut s = SequencePaxos::with(2, storage);
    // the leader accepted less than this follower: the promise carries a
    // delta snapshot of the decided entries the leader is missing, and
    // the undecided suffix
    s.handle_prepare(
        Prepare { n: leader(), n_accepted: ballot(3, 1), accepted_idx: 1, decided_idx: 1 },
        1,
    )
    .unwrap();
    match &s.outgoing[0].msg {
        PaxosMsg::Promise(p) => {
            assert_eq!(p.n_accepted, ballot(4, 1));
            match &p.decided_snapshot {
                Some(omnipaxos::storage::SnapshotType::Delta(d)) => assert_eq!(d.sum, 2 + 3),
                o => panic!("expected a delta snapshot, got {:?}", o),
            }
            assert_eq!(p.suffix, vec![4]);
            assert_eq!(p.decided_idx, 3);
            assert_eq!(p.accepted_idx, 4);
        },
        m => panic!("expected a promise, got {:?}", m),
    }
}

/// A backend whose `set_decided_idx` can be made to fail, for exercising
/// the rollback paths.
struct DecideFailStorage {
    inner: MemoryStorage<u64, SumSnapshot>,
    fail_set_decided: bool,
}

impl Storage<u64, SumSnapshot> for DecideFailStorage {
    fn abs(&self) -> omnipaxos::storage::StorageState<u64, SumSnapshot> {
        // specification-only item of the trait; never called at runtime
        panic!("specification-only")
    }

    fn append_entry(&mut self, entry: u64) -> Result<u64, omnipaxos::storage::StorageErr> {
        self.inner.append_entry(entry)
    }

    fn append_entries(&mut self, entries: Vec<u64>) -> Result<u64, omnipaxos::storage::StorageErr> {
        self.inner.append_entries(entries)
    }

    fn append_on_prefix(
        &mut self,
        from_idx: u64,
        entries: Vec<u64>,
    ) -> Result<u64, omnipaxos::storage::StorageErr> {
        self.inner.append_on_prefix(from_idx, entries)
    }

    fn set_promise(&mut self, n_prom: Ballot) -> Result<(), omnipaxos::storage::StorageErr> {
        self.inner.set_promise(n_prom)
    }

    fn set_decided_idx(&mut self, ld: u64) -> Result<(), omnipaxos::storage::StorageErr> {
        if self.fail_set_decided {
            Err(omnipaxos::storage::StorageErr)
        } else {
            self.inner.set_decided_idx(ld)
        }
    }

    fn get_decided_idx(&self) -> Result<u64, omnipaxos::storage::StorageErr> {
        self.inner.get_decided_idx()
    }

    fn set_accepted_round(&mut self, na: Ballot) -> Result<(), omnipaxos::storage::StorageErr> {
        self.inner.set_accepted_round(na)
    }

    fn get_accepted_round(&self) -> Result<Ballot, omnipaxos::storage::StorageErr> {
        self.inner.get_accepted_round()
    }

    fn get_entries(&self, from: u64, to: u64) -> Result<Vec<u64>, omnipaxos::storage::StorageErr> {
        self.inner.get_entries(from, to)
    }

    fn get_log_len(&self) -> Result<u64, omnipaxos::storage::StorageErr> {
        self.inner.get_log_len()
    }

    fn get_suffix(&self, from: u64) -> Result<Vec<u64>, omnipaxos::storage::StorageErr> {
        self.inner.get_suffix(from)
    }

    fn get_promise(&self) -> Result<Ballot, omnipaxos::storage::StorageErr> {
        self.inner.get_promise()
    }

    fn set_stopsign(
        &mut self,
        s: omnipaxos::storage::StopSignEntry,
    ) -> Result<(), omnipaxos::storage::StorageErr> {
        self.inner.set_stopsign(s)
    }

    fn get_stopsign(
        &self,
    ) -> Result<Option<omnipaxos::storage::StopSignEntry>, omnipaxos::storage::StorageErr> {
        self.inner.get_stopsign()
    }

    fn trim(&mut self, n: u64) -> Result<(), omnipaxos::storage::StorageErr> {
        self.inner.trim(n)
    }

    fn set_compacted_idx(&mut self, idx: u64) -> Result<(), omnipaxos::storage::StorageErr> {
        self.inner.set_compacted_idx(idx)
    }

    fn get_compacted_idx(&self) -> Result<u64, omnipaxos::storage::StorageErr> {
        self.inner.get_compacted_idx()
    }

    fn set_snapshot(
        &mut self,
        snapshot: Option<SumSnapshot>,
    ) -> Result<(), omnipaxos::storage::StorageErr> {
        self.inner.set_snapshot(snapshot)
    }

    fn get_snapshot(&self) -> Result<Option<SumSnapshot>, omnipaxos::storage::StorageErr> {
        self.inner.get_snapshot()
    }
}

#[test]
fn acceptsync_rollback_restores_accepted_round() {
    let mut inner: MemoryStorage<u64, SumSnapshot> = MemoryStorage::new();
    inner.set_promise(ballot(3, 1)).unwrap();
    inner.set_accepted_round(ballot(3, 1)).unwrap();
    inner.append_entries(vec![1, 2, 3]).unwrap();
    inner.set_decided_idx(2).unwrap();
    let storage = DecideFailStorage { inner, fail_set_decided: true };
    let mut s = SequencePaxos::with(2, storage);
    s.handle_prepare(
        Prepare { n: leader(), n_accepted: ballot(3, 1), accepted_idx: 3, decided_idx: 2 },
        1,
    )
    .unwrap();
    let r = s.handle_acceptsync(
        AcceptSync {
            n: leader(),
            decided_snapshot: None,
            suffix: vec![4, 5],
            sync_idx: 3,
            decided_idx: 2,
            stopsign: None,
            seq_num: seq_num(1, 1),
        },
        1,
    );
    // the decided-index write failed: fatal, with the accepted round
    // restored to its value before the handler ran
    let fatal = r.unwrap_err();
    assert!(fatal.restored);
    assert_eq!(s.internal_storage.get_accepted_round().unwrap(), ballot(3, 1));
    assert_eq!(s.state, (Role::Follower, Phase::Prepare));
}

//! Internal-storage behavior: virtual indexing over a compacted log,
//! bounded range reads, snapshots, trims and their rollbacks, plus the
//! sequence-number classification and ballot ordering.

use omnipaxos::ballot::Ballot;
use omnipaxos::internal_storage::{InternalStorage, ReadBound};
use omnipaxos::memory_storage::MemoryStorage;
use omnipaxos::storage::{CompactionErr, Snapshot, StopSign, Storage};
use omnipaxos::util::{LogEntry, MessageStatus, SequenceNumber};

/// A snapshot for tests: the count of snapshotted entries.
#[derive(Debug)]
struct CountSnapshot {
    count: u64,
}

impl Snapshot<u64> for CountSnapshot {
    fn use_snapshots_spec() -> bool {
        // specification-only item of the trait; never called at runtime
        true
    }

    fn create(entries: &[u64]) -> Self {
        CountSnapshot { count: entries.len() as u64 }
    }

    fn merge(&mut self, delta: Self) {
        self.count += delta.count;
    }

    fn use_snapshots() -> bool {
        true
    }

    fn dup(&self) -> Self {
        CountSnapshot { count: self.count }
    }
}

type MemStore = MemoryStorage<u64, CountSnapshot>;

fn store_with_log(entries: Vec<u64>, decided: u64) -> InternalStorage<MemStore, u64, CountSnapshot> {
    let mut storage: MemStore = MemoryStorage::new();
    storage.append_entries(entries).unwrap();
    storage.set_decided_idx(decided).unwrap();
    InternalStorage::with(storage)
}

#[test]
fn virtual_indices_survive_trim() {
    let mut s = store_with_log(vec![10, 11, 12, 13, 14], 4);
    s.try_trim(2).unwrap();
    assert_eq!(s.get_compacted_idx().unwrap(), 2);
    assert_eq!(s.get_log_len().unwrap(), 5);
    assert_eq!(s.get_entries(2, 5).unwrap(), vec![12, 13, 14]);
    assert_eq!(s.get_suffix(3).unwrap(), vec![13, 14]);
}

#[test]
fn try_trim_below_compacted_is_a_no_op() {
    let mut s = store_with_log(vec![10, 11, 12, 13, 14], 4);
    s.try_trim(3).unwrap();
    assert_eq!(s.get_compacted_idx().unwrap(), 3);
    // trimming at or below the compacted index changes nothing
    s.try_trim(3).unwrap();
    s.try_trim(1).unwrap();
    assert_eq!(s.get_compacted_idx().unwrap(), 3);
    assert_eq!(s.get_log_len().unwrap(), 5);
    assert_eq!(s.get_entries(3, 5).unwrap(), vec![13, 14]);
}

#[test]
fn try_trim_past_decided_is_refused() {
    let mut s = store_with_log(vec![10, 11, 12, 13, 14], 3);
    let e = s.try_trim(4).unwrap_err();
    assert_eq!(e, CompactionErr::UndecidedIndex(3));
    assert_eq!(s.get_compacted_idx().unwrap(), 0);
    assert_eq!(s.get_log_len().unwrap(), 5);
}

#[test]
fn try_snapshot_twice_is_a_no_op() {
    let mut s = store_with_log(vec![10, 11, 12, 13, 14], 4);
    s.try_snapshot(Some(4)).unwrap();
    assert_eq!(s.get_compacted_idx().unwrap(), 4);
    assert_eq!(s.get_log_len().unwrap(), 5);
    // the same target again: already compacted, nothing changes
    s.try_snapshot(Some(4)).unwrap();
    assert_eq!(s.get_compacted_idx().unwrap(), 4);
    assert_eq!(s.get_log_len().unwrap(), 5);
    assert_eq!(s.get_entries(4, 5).unwrap(), vec![14]);
}

#[test]
fn try_snapshot_defaults_to_decided() {
    let mut s = store_with_log(vec![10, 11, 12, 13, 14], 3);
    s.try_snapshot(None).unwrap();
    assert_eq!(s.get_compacted_idx().unwrap(), 3);
    let e = s.try_snapshot(Some(5)).unwrap_err();
    assert_eq!(e, CompactionErr::UndecidedIndex(3));
}

#[test]
fn get_entries_outside_backed_interval_is_empty() {
    let mut s = store_with_log(vec![10, 11, 12, 13, 14], 4);
    s.try_trim(2).unwrap();
    // partially below the compacted index
    assert_eq!(s.get_entries(1, 4).unwrap(), Vec::<u64>::new());
    // partially past the end
    assert_eq!(s.get_entries(3, 6).unwrap(), Vec::<u64>::new());
    // fully inside
    assert_eq!(s.get_entries(2, 4).unwrap(), vec![12, 13]);
    // suffix below the compacted index
    assert_eq!(s.get_suffix(1).unwrap(), Vec::<u64>::new());
}

#[test]
fn read_annotates_by_decided_index() {
    let s = store_with_log(vec![10, 11, 12, 13, 14], 2);
    let out = s.read(ReadBound::Included(1), ReadBound::Excluded(5)).unwrap().unwrap();
    assert_eq!(out.len(), 4);
    assert!(matches!(out[0], LogEntry::Decided(11)));
    assert!(matches!(out[1], LogEntry::Decided(12)));
    assert!(matches!(out[2], LogEntry::Undecided(13)));
    assert!(matches!(out[3], LogEntry::Undecided(14)));
}

#[test]
fn read_splices_in_the_compacted_prefix() {
    let mut s = store_with_log(vec![10, 11, 12, 13, 14], 4);
    s.try_trim(2).unwrap();
    let out = s.read(ReadBound::Unbounded, ReadBound::Excluded(4)).unwrap().unwrap();
    assert_eq!(out.len(), 3);
    assert!(matches!(out[0], LogEntry::Trimmed(2)));
    assert!(matches!(out[1], LogEntry::Decided(12)));
    assert!(matches!(out[2], LogEntry::Decided(13)));
}

#[test]
fn read_shows_the_snapshot_placeholder() {
    let mut s = store_with_log(vec![10, 11, 12, 13, 14], 4);
    s.try_snapshot(Some(3)).unwrap();
    let out = s.read(ReadBound::Included(0), ReadBound::Unbounded).unwrap().unwrap();
    assert_eq!(out.len(), 3);
    match &out[0] {
        LogEntry::Snapshotted(se) => {
            assert_eq!(se.trimmed_idx, 3);
            assert_eq!(se.snapshot.count, 3);
        },
        e => panic!("expected a snapshot placeholder, got {:?}", e),
    }
    assert!(matches!(out[1], LogEntry::Decided(13)));
    // the element at the decided index itself is annotated decided
    assert!(matches!(out[2], LogEntry::Decided(14)));
}

#[test]
fn read_out_of_bounds_is_none() {
    let s = store_with_log(vec![10, 11, 12], 2);
    assert!(s.read(ReadBound::Included(1), ReadBound::Excluded(4)).unwrap().is_none());
    assert!(s.read(ReadBound::Included(3), ReadBound::Unbounded).unwrap().is_none());
}

#[test]
fn read_decided_suffix_stops_at_decided() {
    let s = store_with_log(vec![10, 11, 12, 13, 14], 3);
    let out = s.read_decided_suffix(1).unwrap().unwrap();
    assert_eq!(out.len(), 2);
    assert!(matches!(out[0], LogEntry::Decided(11)));
    assert!(matches!(out[1], LogEntry::Decided(12)));
    assert!(s.read_decided_suffix(3).unwrap().is_none());
    assert!(s.read_decided_suffix(4).unwrap().is_none());
}

#[test]
fn create_diff_snapshot_is_complete_when_compacted() {
    let mut s = store_with_log(vec![10, 11, 12, 13, 14], 4);
    s.try_trim(3).unwrap();
    // entries below the compacted index 3 are gone: only a complete
    // snapshot can cover a range starting at or below it
    let snap = s.create_diff_snapshot(2, 4).unwrap();
    assert!(matches!(snap, omnipaxos::storage::SnapshotType::Complete(_)));
    let snap = s.create_diff_snapshot(3, 4).unwrap();
    assert!(matches!(snap, omnipaxos::storage::SnapshotType::Complete(_)));
    // everything from 4 on is still present: a delta suffices
    let snap = s.create_diff_snapshot(4, 4).unwrap();
    assert!(matches!(snap, omnipaxos::storage::SnapshotType::Delta(_)));
}

#[test]
fn append_on_prefix_truncates_then_appends() {
    let mut s = store_with_log(vec![10, 11, 12, 13, 14], 2);
    let len = s.append_on_prefix(3, vec![20, 21]).unwrap();
    assert_eq!(len, 5);
    assert_eq!(s.get_entries(0, 5).unwrap(), vec![10, 11, 12, 20, 21]);
}

#[test]
fn append_on_decided_prefix_uses_decided_index() {
    let mut s = store_with_log(vec![10, 11, 12, 13, 14], 2);
    let len = s.append_on_decided_prefix(vec![20]).unwrap();
    assert_eq!(len, 3);
    assert_eq!(s.get_entries(0, 3).unwrap(), vec![10, 11, 20]);
}

/// A backend whose physical `trim` always fails.
struct TrimFailStorage {
    inner: MemStore,
}

impl Storage<u64, CountSnapshot> for TrimFailStorage {
    fn abs(&self) -> omnipaxos::storage::StorageState<u64, CountSnapshot> {
        // specification-only item of the trait; never called at runtime
        panic!("specification-only")
    }

    fn append_entry(&mut self, entry: u64) -> Result<u64, omnipaxos::storage::StorageErr> {
        self.inner.append_entry(entry)
    }

    fn append_entries(&mut self, entries: Vec<u64>) -> Result<u64, omnipaxos::storage::StorageErr> {
        self.inner.append_entries(entries)
    }

    fn append_on_prefix(
        &mut self,
        from_idx: u64,
        entries: Vec<u64>,
    ) -> Result<u64, omnipaxos::storage::StorageErr> {
        self.inner.append_on_prefix(from_idx, entries)
    }

    fn set_promise(&mut self, n_prom: Ballot) -> Result<(), omnipaxos::storage::StorageErr> {
        self.inner.set_promise(n_prom)
    }

    fn set_decided_idx(&mut self, ld: u64) -> Result<(), omnipaxos::storage::StorageErr> {
        self.inner.set_decided_idx(ld)
    }

    fn get_decided_idx(&self) -> Result<u64, omnipaxos::storage::StorageErr> {
        self.inner.get_decided_idx()
    }

    fn set_accepted_round(&mut self, na: Ballot) -> Result<(), omnipaxos::storage::StorageErr> {
        self.inner.set_accepted_round(na)
    }

    fn get_accepted_round(&self) -> Result<Ballot, omnipaxos::storage::StorageErr> {
        self.inner.get_accepted_round()
    }

    fn get_entries(&self, from: u64, to: u64) -> Result<Vec<u64>, omnipaxos::storage::StorageErr> {
        self.inner.get_entries(from, to)
    }

    fn get_log_len(&self) -> Result<u64, omnipaxos::storage::StorageErr> {
        self.inner.get_log_len()
    }

    fn get_suffix(&self, from: u64) -> Result<Vec<u64>, omnipaxos::storage::StorageErr> {
        self.inner.get_suffix(from)
    }

    fn get_promise(&self) -> Result<Ballot, omnipaxos::storage::StorageErr> {
        self.inner.get_promise()
    }

    fn set_stopsign(
        &mut self,
        s: omnipaxos::storage::StopSignEntry,
    ) -> Result<(), omnipaxos::storage::StorageErr> {
        self.inner.set_stopsign(s)
    }

    fn get_stopsign(
        &self,
    ) -> Result<Option<omnipaxos::storage::StopSignEntry>, omnipaxos::storage::StorageErr> {
        self.inner.get_stopsign()
    }

    fn trim(&mut self, _n: u64) -> Result<(), omnipaxos::storage::StorageErr> {
        Err(omnipaxos::storage::StorageErr)
    }

    fn set_compacted_idx(&mut self, idx: u64) -> Result<(), omnipaxos::storage::StorageErr> {
        self.inner.set_compacted_idx(idx)
    }

    fn get_compacted_idx(&self) -> Result<u64, omnipaxos::storage::StorageErr> {
        self.inner.get_compacted_idx()
    }

    fn set_snapshot(
        &mut self,
        snapshot: Option<CountSnapshot>,
    ) -> Result<(), omnipaxos::storage::StorageErr> {
        self.inner.set_snapshot(snapshot)
    }

    fn get_snapshot(&self) -> Result<Option<CountSnapshot>, omnipaxos::storage::StorageErr> {
        self.inner.get_snapshot()
    }
}

#[test]
fn snapshot_rollback_on_failed_trim() {
    let mut inner: MemStore = MemoryStorage::new();
    inner.append_entries(vec![10, 11, 12, 13, 14]).unwrap();
    inner.set_decided_idx(4).unwrap();
    let mut s: InternalStorage<TrimFailStorage, u64, CountSnapshot> = InternalStorage::with(
        TrimFailStorage { inner },
    );
    // the backend rejects the physical trim: the compacted index and the
    // snapshot slot are restored and the call reports the error
    assert!(s.set_snapshot(4, CountSnapshot { count: 4 }).is_err());
    assert_eq!(s.get_compacted_idx().unwrap(), 0);
    assert_eq!(s.get_log_len().unwrap(), 5);
    assert_eq!(s.get_entries(0, 5).unwrap(), vec![10, 11, 12, 13, 14]);
    // the replica state is unchanged: a later read sees no snapshot
    let out = s.read(ReadBound::Included(0), ReadBound::Excluded(2)).unwrap().unwrap();
    assert!(matches!(out[0], LogEntry::Decided(10)));
}

#[test]
fn read_at_log_end_reaches_the_stop_sign() {
    let mut storage: MemStore = MemoryStorage::new();
    storage.append_entries(vec![10, 11, 12]).unwrap();
    storage.set_decided_idx(4).unwrap();
    storage
        .set_stopsign(omnipaxos::storage::StopSignEntry::with(
            StopSign::with(7, vec![1, 2], None),
            true,
        ))
        .unwrap();
    let s = InternalStorage::with(storage);
    // reading from the virtual log end with a decided stop-sign yields
    // exactly the stop-sign element
    let out = s.read(ReadBound::Included(3), ReadBound::Unbounded).unwrap().unwrap();
    assert_eq!(out.len(), 1);
    match &out[0] {
        LogEntry::StopSign(ss) => assert_eq!(ss.config_id, 7),
        e => panic!("expected the stop-sign, got {:?}", e),
    }
    // without a decided stop-sign the same read resolves to nothing
    let mut storage: MemStore = MemoryStorage::new();
    storage.append_entries(vec![10, 11, 12]).unwrap();
    storage.set_decided_idx(2).unwrap();
    let s = InternalStorage::with(storage);
    assert!(s.read(ReadBound::Included(3), ReadBound::Unbounded).unwrap().is_none());
}

#[test]
fn sequence_numbers_classify_messages() {
    let cur = SequenceNumber { session: 1, counter: 2 };
    let check = |m: SequenceNumber| cur.check_msg_status(m);
    assert_eq!(check(SequenceNumber { session: 1, counter: 3 }), MessageStatus::Expected);
    assert_eq!(check(SequenceNumber { session: 1, counter: 9 }), MessageStatus::DroppedPreceding);
    assert_eq!(check(SequenceNumber { session: 1, counter: 2 }), MessageStatus::Outdated);
    assert_eq!(check(SequenceNumber { session: 1, counter: 1 }), MessageStatus::Outdated);
    assert_eq!(check(SequenceNumber { session: 0, counter: 7 }), MessageStatus::Outdated);
    assert_eq!(check(SequenceNumber { session: 2, counter: 1 }), MessageStatus::First);
    // the very first message on a default tracker
    let fresh = SequenceNumber::default();
    assert_eq!(
        fresh.check_msg_status(SequenceNumber { session: 0, counter: 1 }),
        MessageStatus::First
    );
}

#[test]
fn ballots_order_lexicographically() {
    let bottom = Ballot::default();
    let low = Ballot::with(3, 1);
    let tie = Ballot::with(3, 2);
    let high = Ballot::with(5, 1);
    assert!(bottom < low);
    assert!(low < tie);
    assert!(tie < high);
    assert!(low < high);
    assert!(!(high < low));
    assert_eq!(low, Ballot { n: 3, pid: 1 });
}

#[test]
fn stop_sign_equality_ignores_metadata() {
    let a = StopSign::with(7, vec![1, 2, 3], None);
    let b = StopSign::with(7, vec![1, 2, 3], Some(vec![9, 9]));
    let c = StopSign::with(7, vec![1, 2, 4], None);
    let d = StopSign::with(8, vec![1, 2, 3], None);
    assert!(a == b);
    assert!(a != c);
    assert!(a != d);
}

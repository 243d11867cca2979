//! The storage port a host provides, the wire-visible stop-sign and
//! snapshot types, and the abstract state that the port's contract is
//! stated over.

use vstd::prelude::*;

verus! {

use crate::ballot::Ballot;
use crate::util::{copy_range, ConfigurationId, NodeId};

/// Error returned by a storage backend. Every port operation is allowed to
/// fail; the replica rolls back scalar writes and treats the failure as
/// fatal.
#[derive(Clone, Copy, PartialEq, Eq, Structural, Debug)]
pub struct StorageErr;

/// The result type returned by the storage API.
pub type StorageResult<T> = Result<T, StorageErr>;

/// A storage operation failed and the replica must abort. `restored` tells
/// whether the scoped rollback writes that were attempted all succeeded,
/// leaving the scalar cells as the handler's contract states.
#[derive(Clone, Copy, PartialEq, Eq, Structural, Debug)]
pub struct FatalErr {
    /// True when every rollback write succeeded.
    pub restored: bool,
}

/// Compaction asked for an index that is not yet decided.
#[derive(Clone, Copy, PartialEq, Eq, Structural, Debug)]
pub enum CompactionErr {
    /// The requested index exceeds the decided index (carried here).
    UndecidedIndex(u64),
    /// The storage backend failed.
    Storage(StorageErr),
}

/// Mathematical content of a [`StopSign`]: the same fields with the node
/// list as a sequence.
pub struct StopSignView {
    /// The identifier for the new configuration.
    pub config_id: ConfigurationId,
    /// The process ids of the new configuration.
    pub nodes: Seq<NodeId>,
    /// Metadata for the reconfiguration.
    pub metadata: Option<Seq<u8>>,
}

/// A StopSign entry that marks the end of a configuration. Used for
/// reconfiguration.
#[derive(Clone, Debug)]
pub struct StopSign {
    /// The identifier for the new configuration.
    pub config_id: ConfigurationId,
    /// The process ids of the new configuration.
    pub nodes: Vec<NodeId>,
    /// Metadata for the reconfiguration. Can be used for pre-electing a
    /// leader for the new configuration and skipping its prepare phase.
    pub metadata: Option<Vec<u8>>,
}

impl View for StopSign {
    type V = StopSignView;

    open spec fn view(&self) -> StopSignView {
        StopSignView {
            config_id: self.config_id,
            nodes: self.nodes@,
            metadata: match self.metadata {
                Some(m) => Some(m@),
                None => None,
            },
        }
    }
}

impl StopSign {
    /// Creates a [`StopSign`].
    pub fn with(config_id: ConfigurationId, nodes: Vec<NodeId>, metadata: Option<Vec<u8>>) -> (r:
        StopSign)
        ensures
            r@ == (StopSign { config_id, nodes, metadata })@,
    {
        StopSign { config_id, nodes, metadata }
    }

    /// Copy with the same view.
    pub fn dup(&self) -> (r: StopSign)
        ensures
            r@ == self@,
    {
        let nodes = copy_range(&self.nodes, 0, self.nodes.len());
        let metadata = match &self.metadata {
            Some(m) => Some(copy_range(m, 0, m.len())),
            None => None,
        };
        proof {
            assert(nodes@ =~= self.nodes@);
            assert(match self.metadata {
                Some(m) => metadata matches Some(c) && c@ =~= m@,
                None => metadata is None,
            });
        }
        StopSign { config_id: self.config_id, nodes, metadata }
    }
}

/// Wire equality of stop-signs is over `(config_id, nodes)` only; the
/// metadata is not compared.
impl PartialEq for StopSign {
    fn eq(&self, other: &Self) -> (r: bool) {
        if self.config_id != other.config_id || self.nodes.len() != other.nodes.len() {
            return false;
        }
        let mut i: usize = 0;
        while i < self.nodes.len()
            invariant
                i <= self.nodes@.len() == other.nodes@.len(),
                self.config_id == other.config_id,
                forall|j: int| 0 <= j < i ==> self.nodes@[j] == other.nodes@[j],
            decreases self.nodes@.len() - i,
        {
            if self.nodes[i] != other.nodes[i] {
                return false;
            }
            i = i + 1;
        }
        proof {
            assert(self.nodes@ =~= other.nodes@);
        }
        true
    }
}

impl vstd::std_specs::cmp::PartialEqSpecImpl for StopSign {
    open spec fn obeys_eq_spec() -> bool {
        true
    }

    open spec fn eq_spec(&self, other: &StopSign) -> bool {
        self.config_id == other.config_id && self.nodes@ == other.nodes@
    }
}

/// Mathematical content of a [`StopSignEntry`].
pub struct StopSignEntryView {
    /// The stop-sign itself.
    pub stopsign: StopSignView,
    /// Whether the stop-sign has been decided.
    pub decided: bool,
}

/// A stored stop-sign together with its decided flag.
#[derive(Clone, Debug)]
pub struct StopSignEntry {
    /// The stop-sign itself.
    pub stopsign: StopSign,
    /// Whether the stop-sign has been decided.
    pub decided: bool,
}

impl View for StopSignEntry {
    type V = StopSignEntryView;

    open spec fn view(&self) -> StopSignEntryView {
        StopSignEntryView { stopsign: self.stopsign@, decided: self.decided }
    }
}

impl StopSignEntry {
    /// Creates a [`StopSignEntry`].
    pub fn with(stopsign: StopSign, decided: bool) -> (r: Self)
        ensures
            r@.stopsign == stopsign@,
            r@.decided == decided,
    {
        StopSignEntry { stopsign, decided }
    }

    /// Copy with the same view.
    pub fn dup(&self) -> (r: StopSignEntry)
        ensures
            r@ == self@,
    {
        StopSignEntry { stopsign: self.stopsign.dup(), decided: self.decided }
    }
}

/// Snapshot payload of a catch-up message. A `Complete` snapshot contains
/// all snapshotted data while `Delta` has snapshotted changes since an
/// earlier snapshot.
#[derive(Clone, Debug)]
pub enum SnapshotType<S> {
    /// Covers the whole decided prefix.
    Complete(S),
    /// Covers only changes since an earlier snapshot.
    Delta(S),
}

/// Snapshot operations for log entries of type `T`.
///
/// A host implements this for its entry type; the core treats the snapshot
/// contents as opaque and only moves values of it around.
pub trait Snapshot<T>: Sized {
    /// Whether `T` is snapshottable at all. Constant for a given type.
    spec fn use_snapshots_spec() -> bool;

    /// Create a snapshot from the log `entries`. Only called when
    /// snapshots are in use.
    fn create(entries: &[T]) -> Self
        requires
            Self::use_snapshots_spec(),
    ;

    /// Merge another snapshot `delta` into self. Only called when
    /// snapshots are in use.
    fn merge(&mut self, delta: Self)
        requires
            Self::use_snapshots_spec(),
    ;

    /// Whether `T` is snapshottable.
    fn use_snapshots() -> (r: bool)
        ensures
            r == Self::use_snapshots_spec(),
    ;

    /// A copy of the snapshot, equal to this one.
    fn dup(&self) -> (r: Self)
        ensures
            r == *self,
    ;
}

/// A place holder type for when not using snapshots.
#[derive(Clone, Copy, Debug)]
pub struct NoSnapshot;

impl<T> Snapshot<T> for NoSnapshot {
    open spec fn use_snapshots_spec() -> bool {
        false
    }

    fn create(_entries: &[T]) -> Self {
        NoSnapshot
    }

    fn merge(&mut self, _delta: Self) {
    }

    fn use_snapshots() -> (r: bool) {
        false
    }

    fn dup(&self) -> (r: Self) {
        NoSnapshot
    }
}

/// The abstract state of a storage backend: what the port's contract is
/// stated over. Physical indices address `log` directly; the virtual index
/// of `log[i]` is `compacted_idx + i`.
#[verifier::ext_equal]
pub struct StorageState<T, S> {
    /// The physical log, shrinking on compaction.
    pub log: Seq<T>,
    /// The promised round.
    pub promise: Ballot,
    /// The decided index, in virtual index space.
    pub decided_idx: int,
    /// The latest round in which entries have been accepted.
    pub accepted_round: Ballot,
    /// The virtual-to-physical offset: entries below it were compacted.
    pub compacted_idx: int,
    /// The stop-sign slot.
    pub stopsign: Option<StopSignEntryView>,
    /// The snapshot slot.
    pub snapshot: Option<S>,
}

impl<T, S> StorageState<T, S> {
    /// Length of the virtual log: the physical log as if it was never
    /// compacted.
    pub open spec fn vlen(self) -> int {
        self.compacted_idx + self.log.len()
    }

    /// Machine bounds every reachable backend state satisfies.
    pub open spec fn wf(self) -> bool {
        &&& 0 <= self.compacted_idx
        &&& 0 <= self.decided_idx <= u64::MAX
        &&& self.vlen() <= u64::MAX
    }

    /// Whether a decided stop-sign occupies the slot past the log's end.
    pub open spec fn ss_decided(self) -> bool {
        self.stopsign matches Some(e) && e.decided
    }

    /// The physical range `[from, to)`, or empty when not fully present.
    pub open spec fn phys_range(self, from: int, to: int) -> Seq<T> {
        if 0 <= from <= to <= self.log.len() {
            self.log.subrange(from, to)
        } else {
            Seq::empty()
        }
    }

    /// The physical suffix from `from`, or empty when out of bounds.
    pub open spec fn phys_suffix(self, from: int) -> Seq<T> {
        if 0 <= from <= self.log.len() {
            self.log.skip(from)
        } else {
            Seq::empty()
        }
    }

    /// The virtual interval `[from, to)`, or empty unless it is fully
    /// backed by physical entries.
    pub open spec fn ventries(self, from: int, to: int) -> Seq<T> {
        if self.compacted_idx <= from <= to <= self.vlen() {
            self.log.subrange(from - self.compacted_idx, to - self.compacted_idx)
        } else {
            Seq::empty()
        }
    }

    /// The virtual suffix from `from`, or empty unless fully backed.
    pub open spec fn vsuffix(self, from: int) -> Seq<T> {
        if self.compacted_idx <= from <= self.vlen() {
            self.log.skip(from - self.compacted_idx)
        } else {
            Seq::empty()
        }
    }

    /// Same state with the log replaced.
    pub open spec fn with_log(self, log: Seq<T>) -> Self {
        StorageState { log, ..self }
    }

    /// Same state with the promise replaced.
    pub open spec fn with_promise(self, promise: Ballot) -> Self {
        StorageState { promise, ..self }
    }

    /// Same state with the decided index replaced.
    pub open spec fn with_decided_idx(self, decided_idx: int) -> Self {
        StorageState { decided_idx, ..self }
    }

    /// Same state with the accepted round replaced.
    pub open spec fn with_accepted_round(self, accepted_round: Ballot) -> Self {
        StorageState { accepted_round, ..self }
    }

    /// Same state with the compacted index replaced.
    pub open spec fn with_compacted_idx(self, compacted_idx: int) -> Self {
        StorageState { compacted_idx, ..self }
    }

    /// Same state with the stop-sign slot replaced.
    pub open spec fn with_stopsign(self, stopsign: Option<StopSignEntryView>) -> Self {
        StorageState { stopsign, ..self }
    }

    /// Same state with the snapshot slot replaced.
    pub open spec fn with_snapshot(self, snapshot: Option<S>) -> Self {
        StorageState { snapshot, ..self }
    }
}

/// The storage port of Sequence Paxos: a host provides it, and the replica
/// owns it exclusively. All indices here are physical. Any operation may
/// fail; a failed operation must leave the observable state unchanged.
pub trait Storage<T, S>: Sized {
    /// The abstract state the contract is stated over.
    spec fn abs(&self) -> StorageState<T, S>;

    /// Appends an entry to the end of the log and returns the log length.
    fn append_entry(&mut self, entry: T) -> (r: StorageResult<u64>)
        requires
            old(self).abs().log.len() + 1 <= u64::MAX,
        ensures
            r is Err ==> final(self).abs() == old(self).abs(),
            r matches Ok(len) ==> final(self).abs() == old(self).abs().with_log(
                old(self).abs().log.push(entry),
            ) && len as int == old(self).abs().log.len() + 1,
    ;

    /// Appends the entries of `entries` to the end of the log and returns
    /// the log length.
    fn append_entries(&mut self, entries: Vec<T>) -> (r: StorageResult<u64>)
        requires
            old(self).abs().log.len() + entries@.len() <= u64::MAX,
        ensures
            r is Err ==> final(self).abs() == old(self).abs(),
            r matches Ok(len) ==> final(self).abs() == old(self).abs().with_log(
                old(self).abs().log + entries@,
            ) && len as int == old(self).abs().log.len() + entries@.len(),
    ;

    /// Truncates the log to `from_idx` entries, appends `entries`, and
    /// returns the log length.
    fn append_on_prefix(&mut self, from_idx: u64, entries: Vec<T>) -> (r: StorageResult<u64>)
        requires
            from_idx as int <= old(self).abs().log.len(),
            from_idx as int + entries@.len() <= u64::MAX,
        ensures
            r is Err ==> final(self).abs() == old(self).abs(),
            r matches Ok(len) ==> final(self).abs() == old(self).abs().with_log(
                old(self).abs().log.take(from_idx as int) + entries@,
            ) && len as int == from_idx as int + entries@.len(),
    ;

    /// Sets the round that has been promised.
    fn set_promise(&mut self, n_prom: Ballot) -> (r: StorageResult<()>)
        ensures
            r is Err ==> final(self).abs() == old(self).abs(),
            r is Ok ==> final(self).abs() == old(self).abs().with_promise(n_prom),
    ;

    /// Sets the decided index in the log.
    fn set_decided_idx(&mut self, ld: u64) -> (r: StorageResult<()>)
        ensures
            r is Err ==> final(self).abs() == old(self).abs(),
            r is Ok ==> final(self).abs() == old(self).abs().with_decided_idx(ld as int),
    ;

    /// Returns the decided index in the log.
    fn get_decided_idx(&self) -> (r: StorageResult<u64>)
        ensures
            r matches Ok(d) ==> d as int == self.abs().decided_idx,
    ;

    /// Sets the latest accepted round.
    fn set_accepted_round(&mut self, na: Ballot) -> (r: StorageResult<()>)
        ensures
            r is Err ==> final(self).abs() == old(self).abs(),
            r is Ok ==> final(self).abs() == old(self).abs().with_accepted_round(na),
    ;

    /// Returns the latest round in which entries have been accepted.
    fn get_accepted_round(&self) -> (r: StorageResult<Ballot>)
        ensures
            r matches Ok(b) ==> b == self.abs().accepted_round,
    ;

    /// Returns the entries in the log in the index interval of `[from, to)`.
    /// If entries do not exist for the complete interval, an empty vector
    /// is returned.
    fn get_entries(&self, from: u64, to: u64) -> (r: StorageResult<Vec<T>>)
        ensures
            r matches Ok(es) ==> es@ == self.abs().phys_range(from as int, to as int),
    ;

    /// Returns the current length of the log.
    fn get_log_len(&self) -> (r: StorageResult<u64>)
        ensures
            r matches Ok(len) ==> len as int == self.abs().log.len(),
    ;

    /// Returns the suffix of entries in the log from index `from`, or an
    /// empty vector when `from` is out of bounds.
    fn get_suffix(&self, from: u64) -> (r: StorageResult<Vec<T>>)
        ensures
            r matches Ok(es) ==> es@ == self.abs().phys_suffix(from as int),
    ;

    /// Returns the round that has been promised.
    fn get_promise(&self) -> (r: StorageResult<Ballot>)
        ensures
            r matches Ok(b) ==> b == self.abs().promise,
    ;

    /// Sets the StopSign used for reconfiguration.
    fn set_stopsign(&mut self, s: StopSignEntry) -> (r: StorageResult<()>)
        ensures
            r is Err ==> final(self).abs() == old(self).abs(),
            r is Ok ==> final(self).abs() == old(self).abs().with_stopsign(Some(s@)),
    ;

    /// Returns the stored StopSign.
    fn get_stopsign(&self) -> (r: StorageResult<Option<StopSignEntry>>)
        ensures
            r matches Ok(o) ==> match o {
                Some(e) => self.abs().stopsign == Some(e@),
                None => self.abs().stopsign is None,
            },
    ;

    /// Removes the first `n` entries from the log (all of them when `n`
    /// exceeds the log length).
    fn trim(&mut self, n: u64) -> (r: StorageResult<()>)
        ensures
            r is Err ==> final(self).abs() == old(self).abs(),
            r is Ok ==> final(self).abs() == old(self).abs().with_log(
                if n as int <= old(self).abs().log.len() {
                    old(self).abs().log.skip(n as int)
                } else {
                    Seq::empty()
                },
            ),
    ;

    /// Sets the compacted (i.e. trimmed or snapshotted) index.
    fn set_compacted_idx(&mut self, idx: u64) -> (r: StorageResult<()>)
        ensures
            r is Err ==> final(self).abs() == old(self).abs(),
            r is Ok ==> final(self).abs() == old(self).abs().with_compacted_idx(idx as int),
    ;

    /// Returns the garbage collector index from storage.
    fn get_compacted_idx(&self) -> (r: StorageResult<u64>)
        ensures
            r matches Ok(c) ==> c as int == self.abs().compacted_idx,
    ;

    /// Sets the snapshot.
    fn set_snapshot(&mut self, snapshot: Option<S>) -> (r: StorageResult<()>)
        ensures
            r is Err ==> final(self).abs() == old(self).abs(),
            r is Ok ==> final(self).abs() == old(self).abs().with_snapshot(snapshot),
    ;

    /// Returns the stored snapshot.
    fn get_snapshot(&self) -> (r: StorageResult<Option<S>>)
        ensures
            r matches Ok(o) ==> o == self.abs().snapshot,
    ;
}

/// A scalar write to replay when a later step of a multi-step storage
/// operation fails. Rollback sequences are ordered reverse of write order.
#[derive(Clone, Copy, Debug)]
pub enum RollbackValue {
    /// Restore the decided index.
    DecidedIdx(u64),
    /// Restore the accepted round.
    AcceptedRound(Ballot),
}

} // verus!

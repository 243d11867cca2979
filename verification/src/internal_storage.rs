//! Internal representation of storage. Hides all complexities with the
//! compacted index such that Sequence Paxos accesses the log with
//! uncompacted, *virtual* indices: the virtual log `[0, vlen)` never
//! shrinks while the physical log does on compaction, and
//! `real = virtual - compacted_idx` is translated only here.

use vstd::prelude::*;

verus! {

use core::marker::PhantomData;
use crate::ballot::Ballot;
use crate::storage::{
    CompactionErr, FatalErr, RollbackValue, Snapshot, SnapshotType, StopSignEntry, Storage,
    StorageResult, StorageState,
};
use crate::util::{IndexEntry, LogEntry, SnapshottedEntry};

/// The scalar cell a single [`RollbackValue`] restores, applied to the
/// abstract storage state.
pub open spec fn apply_rollback<T, S>(st: StorageState<T, S>, v: RollbackValue) -> StorageState<
    T,
    S,
> {
    match v {
        RollbackValue::DecidedIdx(idx) => st.with_decided_idx(idx as int),
        RollbackValue::AcceptedRound(b) => st.with_accepted_round(b),
    }
}

/// A whole rollback sequence applied in order, first element first.
pub open spec fn apply_rollbacks<T, S>(st: StorageState<T, S>, vs: Seq<RollbackValue>) -> StorageState<
    T,
    S,
>
    decreases vs.len(),
{
    if vs.len() == 0 {
        st
    } else {
        apply_rollback(apply_rollbacks(st, vs.drop_last()), vs.last())
    }
}

/// A one-element rollback sequence restores exactly its cell.
pub proof fn lemma_apply_rollbacks_one<T, S>(st: StorageState<T, S>, v: RollbackValue)
    ensures
        apply_rollbacks(st, Seq::empty().push(v)) == apply_rollback(st, v),
{
    let s = Seq::empty().push(v);
    assert(s.drop_last() =~= Seq::<RollbackValue>::empty());
    assert(apply_rollbacks(st, Seq::<RollbackValue>::empty()) == st);
    assert(apply_rollbacks(st, s) == apply_rollback(apply_rollbacks(st, s.drop_last()), s.last()));
}

/// A two-element rollback sequence restores its cells in order.
pub proof fn lemma_apply_rollbacks_two<T, S>(
    st: StorageState<T, S>,
    v1: RollbackValue,
    v2: RollbackValue,
)
    ensures
        apply_rollbacks(st, Seq::empty().push(v1).push(v2)) == apply_rollback(
            apply_rollback(st, v1),
            v2,
        ),
{
    let s = Seq::empty().push(v1).push(v2);
    assert(s.drop_last() =~= Seq::empty().push(v1));
    lemma_apply_rollbacks_one(st, v1);
}

/// One end of a log read: inclusive, exclusive, or open.
#[derive(Clone, Copy, Debug)]
pub enum ReadBound {
    /// The bound itself is part of the range.
    Included(u64),
    /// The range stops short of (or starts past) the bound.
    Excluded(u64),
    /// No bound: from the log's start, or to its readable end (which
    /// includes the stop-sign slot when the stop-sign is decided).
    Unbounded,
}

/// The virtual index a read starts at.
pub open spec fn resolve_from(b: ReadBound) -> int {
    match b {
        ReadBound::Included(i) => i as int,
        ReadBound::Excluded(e) => e as int + 1,
        ReadBound::Unbounded => 0,
    }
}

/// The virtual index (exclusive) a read stops at; an open end reaches the
/// decided stop-sign when there is one.
pub open spec fn resolve_to<T, S>(st: StorageState<T, S>, b: ReadBound) -> int {
    match b {
        ReadBound::Included(i) => i as int + 1,
        ReadBound::Excluded(e) => e as int,
        ReadBound::Unbounded => st.vlen() + if st.ss_decided() {
            1int
        } else {
            0int
        },
    }
}

/// What a read of the resolved virtual range `[from, to)` produces, for a
/// nonempty range: `None` when an end is out of bounds, otherwise
/// `(leading_placeholder, elo, ehi, trailing_stop_sign)` — an optional
/// placeholder for the compacted prefix, the physically read virtual
/// interval `[elo, ehi)`, and an optional decided stop-sign.
pub open spec fn read_shape<T, S>(st: StorageState<T, S>, from: int, to: int) -> Option<
    (bool, int, int, bool),
>
    recommends
        from < to,
{
    let c = st.compacted_idx;
    let v = st.vlen();
    if to - 1 < c {
        Some((true, c, c, false))
    } else if to - 1 > v || (to - 1 == v && !st.ss_decided()) {
        None
    } else if from < c {
        if to - 1 < v {
            Some((true, c, to, false))
        } else {
            Some((true, c, to - 1, true))
        }
    } else if from < v {
        if to - 1 < v {
            Some((false, from, to, false))
        } else {
            Some((false, from, to - 1, true))
        }
    } else if from == v && st.ss_decided() {
        Some((false, v, v, true))
    } else {
        None
    }
}

/// The placeholder standing for the compacted prefix: the stored snapshot
/// when there is one, else a bare trim marker.
pub open spec fn compacted_entry_ok<T, S>(st: StorageState<T, S>, e: LogEntry<T, S>) -> bool {
    match st.snapshot {
        Some(s) => e matches LogEntry::Snapshotted(se) && se.trimmed_idx as int == st.compacted_idx
            && se.snapshot == s,
        None => e matches LogEntry::Trimmed(t) && t as int == st.compacted_idx,
    }
}

/// The produced element for the physically present virtual index `i`:
/// the entry itself, annotated `Decided` up to the decided index.
pub open spec fn log_entry_ok<T, S>(st: StorageState<T, S>, e: LogEntry<T, S>, i: int) -> bool {
    if i <= st.decided_idx {
        e == LogEntry::<T, S>::Decided(st.log[i - st.compacted_idx])
    } else {
        e == LogEntry::<T, S>::Undecided(st.log[i - st.compacted_idx])
    }
}

/// The terminal element standing for the decided stop-sign.
pub open spec fn stop_sign_entry_ok<T, S>(st: StorageState<T, S>, e: LogEntry<T, S>) -> bool {
    st.stopsign matches Some(sse) && (e matches LogEntry::StopSign(ss) && ss@ == sse.stopsign)
}

/// The produced sequence for a read of shape `shape`: the optional
/// placeholder, then the entries of `[elo, ehi)` in log order, then the
/// optional stop-sign.
pub open spec fn read_out_ok<T, S>(
    st: StorageState<T, S>,
    shape: (bool, int, int, bool),
    out: Seq<LogEntry<T, S>>,
) -> bool {
    let (hasc, elo, ehi, hass) = shape;
    let nc: int = if hasc {
        1int
    } else {
        0int
    };
    &&& out.len() == nc + (ehi - elo) + if hass {
        1int
    } else {
        0int
    }
    &&& (hasc ==> compacted_entry_ok(st, out[0]))
    &&& forall|j: int| nc <= j < nc + (ehi - elo) ==> log_entry_ok(st, #[trigger] out[j], elo + (j - nc))
    &&& (hass ==> stop_sign_entry_ok(st, out[out.len() - 1]))
}

/// Wraps a storage backend and translates between virtual and physical
/// log indices. The sole owner of the port for the replica's lifetime.
pub struct InternalStorage<I, T, S> {
    storage: I,
    _t: PhantomData<(T, S)>,
}

impl<I, T, S> InternalStorage<I, T, S> where I: Storage<T, S>, S: Snapshot<T> {
    /// The abstract state of the wrapped backend.
    pub closed spec fn st(self) -> StorageState<T, S> {
        self.storage.abs()
    }

    /// Virtual log length.
    pub open spec fn vlen(self) -> int {
        self.st().vlen()
    }

    /// Machine bounds of the wrapped state.
    pub open spec fn wf(self) -> bool {
        self.st().wf()
    }

    /// Wraps `storage`.
    pub fn with(storage: I) -> (r: Self)
        ensures
            r.st() == storage.abs(),
    {
        InternalStorage { storage, _t: PhantomData }
    }

    /// Writes the single rolled-back value.
    pub fn single_rollback(&mut self, value: RollbackValue) -> (r: StorageResult<()>)
        ensures
            r is Err ==> final(self).st() == old(self).st(),
            r is Ok ==> final(self).st() == apply_rollback(old(self).st(), value),
            final(self).st().promise == old(self).st().promise,
            final(self).st().log == old(self).st().log,
            final(self).st().compacted_idx == old(self).st().compacted_idx,
            final(self).st().stopsign == old(self).st().stopsign,
            final(self).st().snapshot == old(self).st().snapshot,
    {
        match value {
            RollbackValue::DecidedIdx(idx) => self.storage.set_decided_idx(idx),
            RollbackValue::AcceptedRound(b) => self.storage.set_accepted_round(b),
        }
    }

    /// Writes the rolled-back values in order, stopping at the first
    /// failure: a failed rollback write is fatal and nothing further is
    /// attempted.
    pub fn rollback(&mut self, values: Vec<RollbackValue>) -> (r: StorageResult<()>)
        ensures
            r is Ok ==> final(self).st() == apply_rollbacks(old(self).st(), values@),
            final(self).st().promise == old(self).st().promise,
            final(self).st().log == old(self).st().log,
            final(self).st().compacted_idx == old(self).st().compacted_idx,
            final(self).st().stopsign == old(self).st().stopsign,
            final(self).st().snapshot == old(self).st().snapshot,
    {
        let mut i: usize = 0;
        while i < values.len()
            invariant
                0 <= i <= values@.len(),
                self.st() == apply_rollbacks(old(self).st(), values@.take(i as int)),
                self.st().promise == old(self).st().promise,
                self.st().log == old(self).st().log,
                self.st().compacted_idx == old(self).st().compacted_idx,
                self.st().stopsign == old(self).st().stopsign,
                self.st().snapshot == old(self).st().snapshot,
            decreases values@.len() - i,
        {
            let res = self.single_rollback(values[i]);
            if res.is_err() {
                return Err(crate::storage::StorageErr);
            }
            proof {
                assert(values@.take(i + 1int).drop_last() =~= values@.take(i as int));
                assert(values@.take(i + 1int).last() == values@[i as int]);
            }
            i = i + 1;
        }
        proof {
            assert(values@.take(values@.len() as int) =~= values@);
        }
        Ok(())
    }

    /// Handles a failed multi-step write: if `result` is an error, writes
    /// the rollback `values` and reports the failure as fatal, recording
    /// whether the rollback itself went through.
    pub fn rollback_if_err<R>(&mut self, result: &StorageResult<R>, values: Vec<RollbackValue>) -> (r:
        Result<(), FatalErr>)
        ensures
            result is Ok ==> r is Ok && final(self).st() == old(self).st(),
            result is Err ==> (r matches Err(f) && (f.restored ==> final(self).st()
                == apply_rollbacks(old(self).st(), values@))),
            final(self).st().promise == old(self).st().promise,
            final(self).st().log == old(self).st().log,
            final(self).st().compacted_idx == old(self).st().compacted_idx,
            final(self).st().stopsign == old(self).st().stopsign,
            final(self).st().snapshot == old(self).st().snapshot,
    {
        if result.is_err() {
            let rb = self.rollback(values);
            Err(FatalErr { restored: rb.is_ok() })
        } else {
            Ok(())
        }
    }

    /*** Reading scalars ***/

    /// Returns the promised round.
    pub fn get_promise(&self) -> (r: StorageResult<Ballot>)
        ensures
            r matches Ok(b) ==> b == self.st().promise,
    {
        self.storage.get_promise()
    }

    /// Returns the decided index (virtual).
    pub fn get_decided_idx(&self) -> (r: StorageResult<u64>)
        ensures
            r matches Ok(d) ==> d as int == self.st().decided_idx,
    {
        self.storage.get_decided_idx()
    }

    /// Returns the latest accepted round.
    pub fn get_accepted_round(&self) -> (r: StorageResult<Ballot>)
        ensures
            r matches Ok(b) ==> b == self.st().accepted_round,
    {
        self.storage.get_accepted_round()
    }

    /// Returns the compacted index.
    pub fn get_compacted_idx(&self) -> (r: StorageResult<u64>)
        ensures
            r matches Ok(c) ==> c as int == self.st().compacted_idx,
    {
        self.storage.get_compacted_idx()
    }

    /// Returns the stored stop-sign slot.
    pub fn get_stopsign(&self) -> (r: StorageResult<Option<StopSignEntry>>)
        ensures
            r matches Ok(o) ==> match o {
                Some(e) => self.st().stopsign == Some(e@),
                None => self.st().stopsign is None,
            },
    {
        self.storage.get_stopsign()
    }

    /// The length of the replicated log, as if the log was never
    /// compacted.
    pub fn get_log_len(&self) -> (r: StorageResult<u64>)
        requires
            self.wf(),
        ensures
            r matches Ok(l) ==> l as int == self.vlen(),
    {
        let compacted_idx = self.storage.get_compacted_idx()?;
        let len = self.get_real_log_len()?;
        Ok(compacted_idx + len)
    }

    /// The length of the physical log, which can get smaller with
    /// compaction.
    fn get_real_log_len(&self) -> (r: StorageResult<u64>)
        ensures
            r matches Ok(l) ==> l as int == self.st().log.len(),
    {
        self.storage.get_log_len()
    }

    /*** Reading entries ***/

    /// Returns the entries in the virtual interval `[from, to)`, or an
    /// empty vector unless the interval is fully backed by physical
    /// entries: partial intervals are not silently truncated.
    pub fn get_entries(&self, from: u64, to: u64) -> (r: StorageResult<Vec<T>>)
        requires
            self.wf(),
        ensures
            r matches Ok(es) ==> es@ == self.st().ventries(from as int, to as int),
    {
        let compacted_idx = self.storage.get_compacted_idx()?;
        if compacted_idx <= from && from <= to {
            let es = self.storage.get_entries(from - compacted_idx, to - compacted_idx)?;
            proof {
                assert(es@ =~= self.st().ventries(from as int, to as int));
            }
            Ok(es)
        } else {
            proof {
                assert(Seq::<T>::empty() =~= self.st().ventries(from as int, to as int));
            }
            Ok(Vec::new())
        }
    }

    /// Returns the suffix of the virtual log from `from`, or an empty
    /// vector when `from` is below the compacted index or past the end.
    pub fn get_suffix(&self, from: u64) -> (r: StorageResult<Vec<T>>)
        requires
            self.wf(),
        ensures
            r matches Ok(es) ==> es@ == self.st().vsuffix(from as int),
    {
        let compacted_idx = self.storage.get_compacted_idx()?;
        if compacted_idx <= from {
            let es = self.storage.get_suffix(from - compacted_idx)?;
            proof {
                assert(es@ =~= self.st().vsuffix(from as int));
            }
            Ok(es)
        } else {
            proof {
                assert(Seq::<T>::empty() =~= self.st().vsuffix(from as int));
            }
            Ok(Vec::new())
        }
    }

    /*** Writing ***/

    /// Appends an entry at the end of the virtual log and returns the new
    /// virtual log length.
    pub fn append_entry(&mut self, entry: T) -> (r: StorageResult<u64>)
        requires
            old(self).wf(),
            old(self).vlen() + 1 <= u64::MAX,
        ensures
            r is Err ==> final(self).st() == old(self).st(),
            r matches Ok(l) ==> final(self).st() == old(self).st().with_log(
                old(self).st().log.push(entry),
            ) && l as int == old(self).vlen() + 1,
    {
        let compacted_idx = self.storage.get_compacted_idx()?;
        let idx = self.storage.append_entry(entry)?;
        Ok(idx + compacted_idx)
    }

    /// Appends `entries` at the end of the virtual log and returns the new
    /// virtual log length.
    pub fn append_entries(&mut self, entries: Vec<T>) -> (r: StorageResult<u64>)
        requires
            old(self).wf(),
            old(self).vlen() + entries@.len() <= u64::MAX,
        ensures
            r is Err ==> final(self).st() == old(self).st(),
            r matches Ok(l) ==> final(self).st() == old(self).st().with_log(
                old(self).st().log + entries@,
            ) && l as int == old(self).vlen() + entries@.len(),
    {
        let compacted_idx = self.storage.get_compacted_idx()?;
        let idx = self.storage.append_entries(entries)?;
        Ok(idx + compacted_idx)
    }

    /// Truncates the virtual log down to `from_idx` entries, appends
    /// `entries` and returns the new virtual log length. The truncation
    /// point must not lie inside the compacted prefix.
    pub fn append_on_prefix(&mut self, from_idx: u64, entries: Vec<T>) -> (r: StorageResult<u64>)
        requires
            old(self).wf(),
            old(self).st().compacted_idx <= from_idx as int <= old(self).vlen(),
            from_idx + entries@.len() <= u64::MAX,
        ensures
            r is Err ==> final(self).st() == old(self).st(),
            r matches Ok(l) ==> final(self).st() == old(self).st().with_log(
                old(self).st().log.take(from_idx - old(self).st().compacted_idx) + entries@,
            ) && l as int == from_idx + entries@.len(),
    {
        let compacted_idx = self.storage.get_compacted_idx()?;
        let idx = self.storage.append_on_prefix(from_idx - compacted_idx, entries)?;
        Ok(idx + compacted_idx)
    }

    /// Truncates the virtual log at the decided index, appends `entries`
    /// and returns the new virtual log length.
    pub fn append_on_decided_prefix(&mut self, entries: Vec<T>) -> (r: StorageResult<u64>)
        requires
            old(self).wf(),
            old(self).st().compacted_idx <= old(self).st().decided_idx <= old(self).vlen(),
            old(self).st().decided_idx + entries@.len() <= u64::MAX,
        ensures
            r is Err ==> final(self).st() == old(self).st(),
            r matches Ok(l) ==> final(self).st() == old(self).st().with_log(
                old(self).st().log.take(
                    old(self).st().decided_idx - old(self).st().compacted_idx,
                ) + entries@,
            ) && l as int == old(self).st().decided_idx + entries@.len(),
    {
        let decided_idx = self.storage.get_decided_idx()?;
        self.append_on_prefix(decided_idx, entries)
    }

    /// Persists the promised round.
    pub fn set_promise(&mut self, n_prom: Ballot) -> (r: StorageResult<()>)
        ensures
            r is Err ==> final(self).st() == old(self).st(),
            r is Ok ==> final(self).st() == old(self).st().with_promise(n_prom),
    {
        self.storage.set_promise(n_prom)
    }

    /// Persists the decided index.
    pub fn set_decided_idx(&mut self, ld: u64) -> (r: StorageResult<()>)
        ensures
            r is Err ==> final(self).st() == old(self).st(),
            r is Ok ==> final(self).st() == old(self).st().with_decided_idx(ld as int),
    {
        self.storage.set_decided_idx(ld)
    }

    /// Persists the accepted round.
    pub fn set_accepted_round(&mut self, na: Ballot) -> (r: StorageResult<()>)
        ensures
            r is Err ==> final(self).st() == old(self).st(),
            r is Ok ==> final(self).st() == old(self).st().with_accepted_round(na),
    {
        self.storage.set_accepted_round(na)
    }

    /// Persists the stop-sign slot.
    pub fn set_stopsign(&mut self, s: StopSignEntry) -> (r: StorageResult<()>)
        ensures
            r is Err ==> final(self).st() == old(self).st(),
            r is Ok ==> final(self).st() == old(self).st().with_stopsign(Some(s@)),
    {
        self.storage.set_stopsign(s)
    }

    /*** Snapshots and compaction ***/

    /// Reads the virtual prefix `[0, compact_idx)` that is still
    /// physically present, builds a fresh snapshot of it, and merges it
    /// onto the pre-existing snapshot if there is one. Does not write
    /// anything.
    pub fn create_snapshot(&self, compact_idx: u64) -> (r: StorageResult<S>)
        requires
            S::use_snapshots_spec(),
            self.wf(),
            self.st().compacted_idx <= compact_idx as int,
    {
        let compacted_idx = self.storage.get_compacted_idx()?;
        let entries = self.storage.get_entries(0, compact_idx - compacted_idx)?;
        let delta = S::create(entries.as_slice());
        match self.storage.get_snapshot()? {
            Some(s) => {
                let mut s = s;
                s.merge(delta);
                Ok(s)
            },
            None => Ok(delta),
        }
    }

    /// Builds the snapshot a `Promise` carries: a `Complete` snapshot of
    /// everything up to `to_idx` exactly when the prefix below `from_idx`
    /// is no longer physically available, and otherwise a `Delta` over the
    /// still-present interval `[from_idx, to_idx)`.
    pub fn create_diff_snapshot(&self, from_idx: u64, to_idx: u64) -> (r: StorageResult<
        SnapshotType<S>,
    >)
        requires
            S::use_snapshots_spec(),
            self.wf(),
            self.st().compacted_idx >= from_idx as int ==> self.st().compacted_idx
                <= to_idx as int,
        ensures
            r matches Ok(snap) ==> (snap is Complete <==> self.st().compacted_idx
                >= from_idx as int),
    {
        if self.get_compacted_idx()? >= from_idx {
            Ok(SnapshotType::Complete(self.create_snapshot(to_idx)?))
        } else {
            let diff_entries = self.get_entries(from_idx, to_idx)?;
            Ok(SnapshotType::Delta(S::create(diff_entries.as_slice())))
        }
    }

    /// Installs `snapshot` as covering the virtual prefix `[0, idx)`:
    /// advances the compacted index, stores the snapshot, and trims the
    /// physical log, in that order. A failed step restores the prior
    /// compacted index and, after a failed trim, the prior snapshot; the
    /// operation is non-reversible once it completes. No-op when `idx` is
    /// not past the compacted index.
    pub fn set_snapshot(&mut self, idx: u64, snapshot: S) -> (r: StorageResult<()>)
        requires
            old(self).wf(),
        ensures
            r is Ok ==> final(self).wf(),
            final(self).st().promise == old(self).st().promise,
            final(self).st().decided_idx == old(self).st().decided_idx,
            final(self).st().accepted_round == old(self).st().accepted_round,
            final(self).st().stopsign == old(self).st().stopsign,
            r is Ok && idx as int <= old(self).st().compacted_idx ==> final(self).st() == old(self).st(),
            r is Ok && idx as int > old(self).st().compacted_idx ==> final(self).st() == old(self).st().with_compacted_idx(idx as int).with_snapshot(Some(snapshot)).with_log(
                old(self).st().log.skip(
                    if idx - old(self).st().compacted_idx <= old(self).st().log.len() {
                        idx - old(self).st().compacted_idx
                    } else {
                        old(self).st().log.len() as int
                    },
                ),
            ),
            r is Err ==> final(self).st().log == old(self).st().log && final(self).st().vlen()
                >= old(self).vlen(),
    {
        let old_compacted_idx = self.storage.get_compacted_idx()?;
        let old_snapshot = self.storage.get_snapshot()?;
        if idx > old_compacted_idx {
            self.storage.set_compacted_idx(idx)?;
            if let Err(e) = self.storage.set_snapshot(Some(snapshot)) {
                self.storage.set_compacted_idx(old_compacted_idx)?;
                return Err(e);
            }
            if let Err(e) = self.storage.trim(idx - old_compacted_idx) {
                self.storage.set_compacted_idx(old_compacted_idx)?;
                self.storage.set_snapshot(old_snapshot)?;
                return Err(e);
            }
        }
        Ok(())
    }

    /// Loads the current snapshot, or synthesizes one over the full
    /// virtual log if none exists, merges `delta` into it, and installs
    /// the result as covering `[0, idx)`.
    pub fn merge_snapshot(&mut self, idx: u64, delta: S) -> (r: StorageResult<()>)
        requires
            S::use_snapshots_spec(),
            old(self).wf(),
        ensures
            r is Ok ==> final(self).wf(),
            final(self).st().promise == old(self).st().promise,
            final(self).st().decided_idx == old(self).st().decided_idx,
            final(self).st().accepted_round == old(self).st().accepted_round,
            final(self).st().stopsign == old(self).st().stopsign,
            r is Ok && idx as int <= old(self).st().compacted_idx ==> final(self).st() == old(self).st(),
            r is Ok && idx as int > old(self).st().compacted_idx ==> final(self).st().compacted_idx
                == idx as int && final(self).st().snapshot is Some && final(self).st().log == old(self).st().log.skip(
                if idx - old(self).st().compacted_idx <= old(self).st().log.len() {
                    idx - old(self).st().compacted_idx
                } else {
                    old(self).st().log.len() as int
                },
            ),
            r is Err ==> final(self).st().log == old(self).st().log && final(self).st().vlen()
                >= old(self).vlen(),
    {
        let log_len = self.get_log_len()?;
        let mut snapshot = if let Some(snap) = self.storage.get_snapshot()? {
            snap
        } else {
            self.create_snapshot(log_len)?
        };
        snapshot.merge(delta);
        self.set_snapshot(idx, snapshot)
    }

    /// Drops the virtual prefix `[0, idx)` from physical storage. No-op
    /// when that prefix was already compacted; refused with
    /// `UndecidedIndex` when `idx` is past the decided index. A failed
    /// physical trim restores the compacted index.
    pub fn try_trim(&mut self, idx: u64) -> (r: Result<(), CompactionErr>)
        requires
            old(self).wf(),
            old(self).st().decided_idx <= old(self).vlen() + 1,
        ensures
            r is Ok ==> final(self).wf(),
            final(self).st().promise == old(self).st().promise,
            final(self).st().decided_idx == old(self).st().decided_idx,
            final(self).st().accepted_round == old(self).st().accepted_round,
            final(self).st().stopsign == old(self).st().stopsign,
            final(self).st().snapshot == old(self).st().snapshot,
            r is Ok && idx as int <= old(self).st().compacted_idx ==> final(self).st() == old(self).st(),
            r is Ok && idx as int > old(self).st().compacted_idx ==> idx as int <= old(self).st().decided_idx && final(self).st() == old(self).st().with_compacted_idx(
                idx as int,
            ).with_log(
                old(self).st().log.skip(
                    if idx - old(self).st().compacted_idx <= old(self).st().log.len() {
                        idx - old(self).st().compacted_idx
                    } else {
                        old(self).st().log.len() as int
                    },
                ),
            ),
            r matches Err(e) ==> (e matches CompactionErr::UndecidedIndex(d) ==> idx as int > old(self).st().decided_idx && d as int == old(self).st().decided_idx && final(self).st() == old(self).st()),
            r matches Err(e) ==> (e is Storage ==> final(self).st().log == old(self).st().log),
    {
        let compacted_idx = match self.storage.get_compacted_idx() {
            Ok(c) => c,
            Err(e) => {
                return Err(CompactionErr::Storage(e));
            },
        };
        if idx <= compacted_idx {
            Ok(())  // already trimmed or snapshotted this index
        } else {
            let decided_idx = match self.storage.get_decided_idx() {
                Ok(d) => d,
                Err(e) => {
                    return Err(CompactionErr::Storage(e));
                },
            };
            if idx <= decided_idx {
                if let Err(e) = self.storage.set_compacted_idx(idx) {
                    return Err(CompactionErr::Storage(e));
                }
                if let Err(e) = self.storage.trim(idx - compacted_idx) {
                    if let Err(e2) = self.storage.set_compacted_idx(compacted_idx) {
                        return Err(CompactionErr::Storage(e2));
                    }
                    Err(CompactionErr::Storage(e))
                } else {
                    Ok(())
                }
            } else {
                Err(CompactionErr::UndecidedIndex(decided_idx))
            }
        }
    }

    /// Creates and installs a snapshot covering everything up to
    /// `snapshot_idx` (the decided index when `None`). Refused with
    /// `UndecidedIndex` past the decided index; no-op when the target is
    /// already compacted.
    pub fn try_snapshot(&mut self, snapshot_idx: Option<u64>) -> (r: Result<(), CompactionErr>)
        requires
            S::use_snapshots_spec(),
            old(self).wf(),
        ensures
            r is Ok ==> final(self).wf(),
            final(self).st().promise == old(self).st().promise,
            final(self).st().decided_idx == old(self).st().decided_idx,
            final(self).st().accepted_round == old(self).st().accepted_round,
            final(self).st().stopsign == old(self).st().stopsign,
            ({
                let target = match snapshot_idx {
                    Some(i) => i as int,
                    None => old(self).st().decided_idx,
                };
                &&& r is Ok && target <= old(self).st().compacted_idx ==> final(self).st() == old(self).st()
                &&& r is Ok && target > old(self).st().compacted_idx ==> target <= old(self).st().decided_idx && final(self).st().compacted_idx == target && final(self).st().snapshot is Some && final(self).st().log == old(self).st().log.skip(
                    if target - old(self).st().compacted_idx <= old(self).st().log.len() {
                        target - old(self).st().compacted_idx
                    } else {
                        old(self).st().log.len() as int
                    },
                )
                &&& (r matches Err(e) ==> (e matches CompactionErr::UndecidedIndex(d)
                    ==> snapshot_idx matches Some(i) && i as int > old(self).st().decided_idx
                    && d as int == old(self).st().decided_idx && final(self).st() == old(self).st()))
                &&& (r matches Err(e) ==> (e is Storage ==> final(self).st().log == old(self).st().log && final(self).st().vlen() >= old(self).vlen()))
            }),
    {
        let decided_idx = match self.get_decided_idx() {
            Ok(d) => d,
            Err(e) => {
                return Err(CompactionErr::Storage(e));
            },
        };
        let idx = match snapshot_idx {
            Some(i) => {
                if i <= decided_idx {
                    i
                } else {
                    return Err(CompactionErr::UndecidedIndex(decided_idx));
                }
            },
            None => decided_idx,
        };
        let compacted_idx = match self.get_compacted_idx() {
            Ok(c) => c,
            Err(e) => {
                return Err(CompactionErr::Storage(e));
            },
        };
        if idx > compacted_idx {
            let snapshot = match self.create_snapshot(idx) {
                Ok(s) => s,
                Err(e) => {
                    return Err(CompactionErr::Storage(e));
                },
            };
            if let Err(e) = self.set_snapshot(idx, snapshot) {
                return Err(CompactionErr::Storage(e));
            }
        }
        Ok(())
    }

    /*** Range reads ***/

    /// What occupies the virtual index `idx`: part of the compacted
    /// prefix, a physical entry, the decided stop-sign just past the end,
    /// or nothing.
    fn get_entry_type(&self, idx: u64, compacted_idx: u64, virtual_log_len: u64) -> (r:
        StorageResult<Option<IndexEntry>>)
        requires
            self.wf(),
            compacted_idx as int == self.st().compacted_idx,
            virtual_log_len as int == self.vlen(),
        ensures
            r matches Ok(o) ==> match o {
                Some(IndexEntry::Compacted) => (idx as int) < self.st().compacted_idx,
                Some(IndexEntry::Entry) => self.st().compacted_idx <= idx as int && (idx as int) < self.vlen(),
                Some(IndexEntry::StopSign(ss)) => idx as int == self.vlen()
                    && self.st().ss_decided() && (self.st().stopsign matches Some(e) && ss@
                    == e.stopsign),
                None => idx as int > self.vlen() || (idx as int == self.vlen()
                    && !self.st().ss_decided()),
            },
    {
        if idx < compacted_idx {
            Ok(Some(IndexEntry::Compacted))
        } else if idx < virtual_log_len {
            Ok(Some(IndexEntry::Entry))
        } else if idx == virtual_log_len {
            match self.get_stopsign()? {
                Some(ss) => {
                    if ss.decided {
                        Ok(Some(IndexEntry::StopSign(ss.stopsign)))
                    } else {
                        Ok(None)
                    }
                },
                None => Ok(None),
            }
        } else {
            Ok(None)
        }
    }

    /// The placeholder element standing for the compacted prefix.
    fn create_compacted_entry(&self, compacted_idx: u64) -> (r: StorageResult<LogEntry<T, S>>)
        requires
            compacted_idx as int == self.st().compacted_idx,
        ensures
            r matches Ok(e) ==> compacted_entry_ok(self.st(), e),
    {
        match self.storage.get_snapshot()? {
            Some(s) => Ok(LogEntry::Snapshotted(SnapshottedEntry::with(compacted_idx, s))),
            None => Ok(LogEntry::Trimmed(compacted_idx)),
        }
    }

    /// Get entries with real physical log indices, i.e. the index without
    /// the compacted offset.
    fn get_entries_with_real_idx(&self, from_sfx_idx: u64, to_sfx_idx: u64) -> (r: StorageResult<
        Vec<T>,
    >)
        ensures
            r matches Ok(es) ==> es@ == self.st().phys_range(from_sfx_idx as int, to_sfx_idx as int),
    {
        self.storage.get_entries(from_sfx_idx, to_sfx_idx)
    }

    /// Reads the physical range `[from_sfx_idx, to_sfx_idx)` and annotates
    /// each entry `Decided` or `Undecided` by its virtual index against
    /// the decided index.
    fn create_read_log_entries_with_real_idx(
        &self,
        from_sfx_idx: u64,
        to_sfx_idx: u64,
        compacted_idx: u64,
        decided_idx: u64,
    ) -> (r: StorageResult<Vec<LogEntry<T, S>>>)
        requires
            self.wf(),
            compacted_idx as int == self.st().compacted_idx,
            decided_idx as int == self.st().decided_idx,
            from_sfx_idx <= to_sfx_idx,
            to_sfx_idx as int <= self.st().log.len(),
        ensures
            r matches Ok(es) ==> es@.len() == to_sfx_idx - from_sfx_idx && (forall|k: int|
                0 <= k < es@.len() ==> log_entry_ok(
                    self.st(),
                    #[trigger] es@[k],
                    compacted_idx + from_sfx_idx + k,
                )),
    {
        let mut entries = self.get_entries_with_real_idx(from_sfx_idx, to_sfx_idx)?;
        let ghost orig = entries@;
        let mut out: Vec<LogEntry<T, S>> = Vec::new();
        while entries.len() > 0
            invariant
                self.wf(),
                compacted_idx as int == self.st().compacted_idx,
                decided_idx as int == self.st().decided_idx,
                from_sfx_idx <= to_sfx_idx,
                to_sfx_idx as int <= self.st().log.len(),
                orig.len() == to_sfx_idx - from_sfx_idx,
                out@.len() + entries@.len() == orig.len(),
                entries@ == orig.skip(out@.len() as int),
                forall|k: int|
                    0 <= k < out@.len() ==> log_entry_ok(
                        self.st(),
                        #[trigger] out@[k],
                        compacted_idx + from_sfx_idx + k,
                    ),
                orig == self.st().phys_range(from_sfx_idx as int, to_sfx_idx as int),
            decreases entries@.len(),
        {
            let e = entries.remove(0);
            let log_idx = compacted_idx + from_sfx_idx + out.len() as u64;
            proof {
                assert(orig.skip(out@.len() as int)[0] == orig[out@.len() as int]);
                assert(e == self.st().log[from_sfx_idx + out@.len()]);
                assert(orig.skip(out@.len() as int).skip(1) =~= orig.skip(out@.len() + 1int));
            }
            if log_idx > decided_idx {
                out.push(LogEntry::Undecided(e));
            } else {
                out.push(LogEntry::Decided(e));
            }
        }
        Ok(out)
    }

    /// Reads the virtual range resolved from `(from, to)`: in order, a
    /// placeholder for the compacted prefix when the range dips below the
    /// compacted index, then the backed entries annotated by the decided
    /// index, then the stop-sign when the range reaches past the log's end
    /// and the stop-sign is decided. Returns `None` when an end of the
    /// range is out of bounds.
    pub fn read(&self, from: ReadBound, to: ReadBound) -> (r: StorageResult<
        Option<Vec<LogEntry<T, S>>>,
    >)
        requires
            self.wf(),
            1 <= resolve_to(self.st(), to),
            resolve_from(from) <= resolve_to(self.st(), to),
            resolve_to(self.st(), to) <= u64::MAX,
            !(resolve_from(from) == resolve_to(self.st(), to) && resolve_from(from) == self.vlen()
                && self.st().ss_decided()),
        ensures
            r matches Ok(o) ==> match read_shape(
                self.st(),
                resolve_from(from),
                resolve_to(self.st(), to),
            ) {
                Some(shape) => o matches Some(es) && read_out_ok(self.st(), shape, es@),
                None => o is None,
            },
    {
        let virtual_log_len = self.get_log_len()?;
        let from_idx: u64 = match from {
            ReadBound::Included(i) => i,
            ReadBound::Excluded(e) => e + 1,
            ReadBound::Unbounded => 0,
        };
        let to_idx: u64 = match to {
            ReadBound::Included(i) => i + 1,
            ReadBound::Excluded(e) => e,
            ReadBound::Unbounded => {
                match self.get_stopsign()? {
                    Some(ss) => {
                        if ss.decided {
                            virtual_log_len + 1
                        } else {
                            virtual_log_len
                        }
                    },
                    None => virtual_log_len,
                }
            },
        };
        let compacted_idx = self.storage.get_compacted_idx()?;
        let to_type = match self.get_entry_type(to_idx - 1, compacted_idx, virtual_log_len)? {
            // use to_idx - 1 when getting the entry type as to_idx is exclusive
            Some(IndexEntry::Compacted) => {
                return Ok(Some(vec![self.create_compacted_entry(compacted_idx)?]));
            },
            Some(to_type) => to_type,
            None => {
                return Ok(None);
            },
        };
        let from_type = match self.get_entry_type(from_idx, compacted_idx, virtual_log_len)? {
            Some(from_type) => from_type,
            None => {
                return Ok(None);
            },
        };
        let decided_idx = self.get_decided_idx()?;
        match (from_type, to_type) {
            (IndexEntry::Entry, IndexEntry::Entry) => {
                let from_suffix_idx = from_idx - compacted_idx;
                let to_suffix_idx = to_idx - compacted_idx;
                let entries = self.create_read_log_entries_with_real_idx(
                    from_suffix_idx,
                    to_suffix_idx,
                    compacted_idx,
                    decided_idx,
                )?;
                Ok(Some(entries))
            },
            (IndexEntry::Entry, IndexEntry::StopSign(ss)) => {
                let from_suffix_idx = from_idx - compacted_idx;
                let to_suffix_idx = to_idx - compacted_idx - 1;
                let mut entries = self.create_read_log_entries_with_real_idx(
                    from_suffix_idx,
                    to_suffix_idx,
                    compacted_idx,
                    decided_idx,
                )?;
                entries.push(LogEntry::StopSign(ss));
                Ok(Some(entries))
            },
            (IndexEntry::Compacted, IndexEntry::Entry) => {
                let to_suffix_idx = to_idx - compacted_idx;
                let compacted = self.create_compacted_entry(compacted_idx)?;
                let mut entries = vec![compacted];
                let mut e = self.create_read_log_entries_with_real_idx(
                    0,
                    to_suffix_idx,
                    compacted_idx,
                    decided_idx,
                )?;
                entries.append(&mut e);
                Ok(Some(entries))
            },
            (IndexEntry::Compacted, IndexEntry::StopSign(ss)) => {
                let to_suffix_idx = to_idx - compacted_idx - 1;
                let compacted = self.create_compacted_entry(compacted_idx)?;
                let mut entries = vec![compacted];
                let mut e = self.create_read_log_entries_with_real_idx(
                    0,
                    to_suffix_idx,
                    compacted_idx,
                    decided_idx,
                )?;
                entries.append(&mut e);
                entries.push(LogEntry::StopSign(ss));
                Ok(Some(entries))
            },
            (IndexEntry::StopSign(ss), IndexEntry::StopSign(_)) => {
                Ok(Some(vec![LogEntry::StopSign(ss)]))
            },
            _ => {
                // a backwards combination of range ends is ruled out by
                // the resolved-bound preconditions
                proof {
                    assert(false);
                }
                Ok(None)
            },
        }
    }

    /// Read all decided entries from `from_idx` in the log. Returns
    /// `None` if `from_idx` is at or past the decided index.
    pub fn read_decided_suffix(&self, from_idx: u64) -> (r: StorageResult<
        Option<Vec<LogEntry<T, S>>>,
    >)
        requires
            self.wf(),
        ensures
            r matches Ok(o) ==> if (from_idx as int) < self.st().decided_idx {
                match read_shape(self.st(), from_idx as int, self.st().decided_idx) {
                    Some(shape) => o matches Some(es) && read_out_ok(self.st(), shape, es@),
                    None => o is None,
                }
            } else {
                o is None
            },
    {
        let decided_idx = self.get_decided_idx()?;
        if from_idx < decided_idx {
            self.read(ReadBound::Included(from_idx), ReadBound::Excluded(decided_idx))
        } else {
            Ok(None)
        }
    }
}

} // verus!

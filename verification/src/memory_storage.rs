//! An in-memory storage backend: the reference implementation of the
//! storage port, for copyable entry payloads. It keeps everything in plain
//! fields and never fails.

use vstd::prelude::*;

verus! {

use crate::ballot::Ballot;
use crate::storage::{Snapshot, StopSignEntry, Storage, StorageResult, StorageState};
use crate::util::copy_range;

/// Volatile storage backend holding the log and all scalar cells in
/// memory. Entries must be `Copy` so that reads can hand out copies that
/// provably equal the stored values.
pub struct MemoryStorage<T, S> {
    log: Vec<T>,
    promise: Ballot,
    decided_idx: u64,
    accepted_round: Ballot,
    compacted_idx: u64,
    stopsign: Option<StopSignEntry>,
    snapshot: Option<S>,
}

impl<T: Copy, S: Snapshot<T>> MemoryStorage<T, S> {
    /// An empty backend: empty log, bottom rounds, all indices zero.
    pub fn new() -> (r: Self)
        ensures
            r.abs() == (StorageState::<T, S> {
                log: Seq::empty(),
                promise: Ballot { n: 0, pid: 0 },
                decided_idx: 0int,
                accepted_round: Ballot { n: 0, pid: 0 },
                compacted_idx: 0int,
                stopsign: None,
                snapshot: None,
            }),
    {
        MemoryStorage {
            log: Vec::new(),
            promise: Ballot { n: 0, pid: 0 },
            decided_idx: 0,
            accepted_round: Ballot { n: 0, pid: 0 },
            compacted_idx: 0,
            stopsign: None,
            snapshot: None,
        }
    }
}

impl<T: Copy, S: Snapshot<T>> Storage<T, S> for MemoryStorage<T, S> {
    closed spec fn abs(&self) -> StorageState<T, S> {
        StorageState {
            log: self.log@,
            promise: self.promise,
            decided_idx: self.decided_idx as int,
            accepted_round: self.accepted_round,
            compacted_idx: self.compacted_idx as int,
            stopsign: match self.stopsign {
                Some(e) => Some(e@),
                None => None,
            },
            snapshot: self.snapshot,
        }
    }

    fn append_entry(&mut self, entry: T) -> (r: StorageResult<u64>) {
        self.log.push(entry);
        Ok(self.log.len() as u64)
    }

    fn append_entries(&mut self, entries: Vec<T>) -> (r: StorageResult<u64>) {
        let mut entries = entries;
        self.log.append(&mut entries);
        Ok(self.log.len() as u64)
    }

    fn append_on_prefix(&mut self, from_idx: u64, entries: Vec<T>) -> (r: StorageResult<u64>) {
        let mut entries = entries;
        self.log.truncate(from_idx as usize);
        self.log.append(&mut entries);
        Ok(self.log.len() as u64)
    }

    fn set_promise(&mut self, n_prom: Ballot) -> (r: StorageResult<()>) {
        self.promise = n_prom;
        Ok(())
    }

    fn set_decided_idx(&mut self, ld: u64) -> (r: StorageResult<()>) {
        self.decided_idx = ld;
        Ok(())
    }

    fn get_decided_idx(&self) -> (r: StorageResult<u64>) {
        Ok(self.decided_idx)
    }

    fn set_accepted_round(&mut self, na: Ballot) -> (r: StorageResult<()>) {
        self.accepted_round = na;
        Ok(())
    }

    fn get_accepted_round(&self) -> (r: StorageResult<Ballot>) {
        Ok(self.accepted_round)
    }

    fn get_entries(&self, from: u64, to: u64) -> (r: StorageResult<Vec<T>>) {
        if from <= to && to <= self.log.len() as u64 {
            Ok(copy_range(&self.log, from as usize, to as usize))
        } else {
            Ok(Vec::new())
        }
    }

    fn get_log_len(&self) -> (r: StorageResult<u64>) {
        Ok(self.log.len() as u64)
    }

    fn get_suffix(&self, from: u64) -> (r: StorageResult<Vec<T>>) {
        if from <= self.log.len() as u64 {
            let r = copy_range(&self.log, from as usize, self.log.len());
            proof {
                assert(r@ =~= self.abs().phys_suffix(from as int));
            }
            Ok(r)
        } else {
            Ok(Vec::new())
        }
    }

    fn get_promise(&self) -> (r: StorageResult<Ballot>) {
        Ok(self.promise)
    }

    fn set_stopsign(&mut self, s: StopSignEntry) -> (r: StorageResult<()>) {
        self.stopsign = Some(s);
        Ok(())
    }

    fn get_stopsign(&self) -> (r: StorageResult<Option<StopSignEntry>>) {
        match &self.stopsign {
            Some(e) => Ok(Some(e.dup())),
            None => Ok(None),
        }
    }

    fn trim(&mut self, n: u64) -> (r: StorageResult<()>) {
        if n >= self.log.len() as u64 {
            self.log.clear();
        } else {
            let rest = copy_range(&self.log, n as usize, self.log.len());
            self.log = rest;
            proof {
                assert(self.log@ =~= old(self).abs().log.skip(n as int));
            }
        }
        proof {
            assert(self.abs() =~= old(self).abs().with_log(
                if n as int <= old(self).abs().log.len() {
                    old(self).abs().log.skip(n as int)
                } else {
                    Seq::empty()
                },
            ));
        }
        Ok(())
    }

    fn set_compacted_idx(&mut self, idx: u64) -> (r: StorageResult<()>) {
        self.compacted_idx = idx;
        Ok(())
    }

    fn get_compacted_idx(&self) -> (r: StorageResult<u64>) {
        Ok(self.compacted_idx)
    }

    fn set_snapshot(&mut self, snapshot: Option<S>) -> (r: StorageResult<()>) {
        self.snapshot = snapshot;
        Ok(())
    }

    fn get_snapshot(&self) -> (r: StorageResult<Option<S>>) {
        match &self.snapshot {
            Some(s) => Ok(Some(s.dup())),
            None => Ok(None),
        }
    }
}

} // verus!

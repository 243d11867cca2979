//! The library's laws: properties that relate several operations or
//! quantify over all states, proved once here against the contracts of the
//! modules. Per-call properties (what a single handler or storage
//! operation does, including that an `Outdated` replay is a no-op) stand
//! directly in the `ensures` of the functions themselves.

use vstd::prelude::*;

verus! {

use crate::ballot::Ballot;
use crate::follower::{accepted_queued, acceptdecide_applied, Phase, SequencePaxos};
use crate::internal_storage::{
    compacted_entry_ok, log_entry_ok, read_out_ok, read_shape, resolve_to, stop_sign_entry_ok,
    ReadBound,
};
use crate::messages::{AcceptDecide, PaxosMessage};
use crate::storage::{Snapshot, Storage, StorageState};
use crate::util::{lemma_replay_outdated, LogEntry, MessageStatus};

/// Index bounds of every replica state that satisfies the invariant: the
/// compacted index never passes the decided index, the decided index stays
/// within the virtual log (one slot past it only when the stop-sign is
/// decided), and the virtual log length is exactly the compacted index
/// plus the physical log length.
pub proof fn lemma_replica_index_bounds<I, T, S>(s: SequencePaxos<I, T, S>) where
    I: Storage<T, S>,
    S: Snapshot<T>,

    requires
        s.inv(),
    ensures
        s.st().compacted_idx <= s.st().decided_idx,
        s.st().decided_idx <= s.st().compacted_idx + s.st().log.len() + (if s.st().ss_decided() {
            1int
        } else {
            0int
        }),
        s.vlen() == s.st().compacted_idx + s.st().log.len(),
        s.st().accepted_round.le_spec(s.st().promise),
{
}

/// While the phase is `Prepare`, the gates of the accept and decide
/// handlers are closed, and by those handlers' contracts a gated-out call
/// changes nothing: no entries are appended and the accepted round is
/// untouched until `handle_acceptsync` (whose gate asks for this very
/// phase) commits the transition to `Accept`.
pub proof fn lemma_prepare_phase_gates_closed<I, T, S>(s: SequencePaxos<I, T, S>, n: Ballot) where
    I: Storage<T, S>,
    S: Snapshot<T>,

    requires
        s.state.1 == Phase::Prepare,
    ensures
        !s.accept_gate(n),
        !s.decide_gate(n),
{
}

/// Every pair of queued `Accepted` messages acknowledges distinct rounds.
pub open spec fn accepted_rounds_unique<T, S>(q: Seq<PaxosMessage<T, S>>) -> bool {
    forall|k1: int, k2: int|
        0 <= k1 < q.len() && 0 <= k2 < q.len() && (#[trigger] q[k1].msg) is Accepted && (
        #[trigger] q[k2].msg) is Accepted && q[k1].msg->Accepted_0.n == q[k2].msg->Accepted_0.n
            ==> k1 == k2
}

/// At most one `Accepted` per round, advancing in place: when the queue
/// holds an `Accepted` for round `n` only at the tracked slot (as it does
/// after every drain, which clears the tracking index together with the
/// queue), acknowledging a new accepted index `idx` for `n` keeps every
/// round's `Accepted` unique in the queue, and the tracked message's
/// `accepted_idx` never decreases.
pub proof fn lemma_accepted_per_round_unique<I, T, S>(
    pre: SequencePaxos<I, T, S>,
    n: Ballot,
    idx: int,
    post: SequencePaxos<I, T, S>,
) where I: Storage<T, S>, S: Snapshot<T>
    requires
        pre.meta_ok(),
        pre.meta_mono(),
        pre.vlen() <= idx,
        accepted_rounds_unique(pre.outgoing@),
        forall|k: int|
            0 <= k < pre.outgoing@.len() && (#[trigger] pre.outgoing@[k].msg) is Accepted
                && pre.outgoing@[k].msg->Accepted_0.n == n ==> (pre.latest_accepted_meta matches
            Some((b, i)) && b == n && i as int == k),
        accepted_queued(pre, pre.outgoing@, n, idx, post),
    ensures
        accepted_rounds_unique(post.outgoing@),
        ({
            let m = pre.latest_accepted_meta;
            (m is Some && m->Some_0.0 == n) ==> pre.outgoing@[m->Some_0.1 as int].msg->Accepted_0.accepted_idx
                <= post.outgoing@[m->Some_0.1 as int].msg->Accepted_0.accepted_idx
        }),
{
    match pre.latest_accepted_meta {
        Some((b, i)) if b == n => {
            assert forall|k1: int, k2: int|
                0 <= k1 < post.outgoing@.len() && 0 <= k2 < post.outgoing@.len() && (
                #[trigger] post.outgoing@[k1].msg) is Accepted && (
                #[trigger] post.outgoing@[k2].msg) is Accepted && post.outgoing@[k1].msg->Accepted_0.n
                == post.outgoing@[k2].msg->Accepted_0.n implies k1 == k2 by {
                if k1 != i as int && k2 != i as int {
                    assert(post.outgoing@[k1] == pre.outgoing@[k1]);
                    assert(post.outgoing@[k2] == pre.outgoing@[k2]);
                } else if k1 == i as int && k2 != i as int {
                    assert(post.outgoing@[k2] == pre.outgoing@[k2]);
                } else if k2 == i as int && k1 != i as int {
                    assert(post.outgoing@[k1] == pre.outgoing@[k1]);
                }
            }
        },
        _ => {
            assert forall|k1: int, k2: int|
                0 <= k1 < post.outgoing@.len() && 0 <= k2 < post.outgoing@.len() && (
                #[trigger] post.outgoing@[k1].msg) is Accepted && (
                #[trigger] post.outgoing@[k2].msg) is Accepted && post.outgoing@[k1].msg->Accepted_0.n
                == post.outgoing@[k2].msg->Accepted_0.n implies k1 == k2 by {
                let len = pre.outgoing@.len() as int;
                if k1 < len && k2 < len {
                    assert(post.outgoing@[k1] == pre.outgoing@[k1]);
                    assert(post.outgoing@[k2] == pre.outgoing@[k2]);
                } else if k1 < len && k2 == len {
                    assert(post.outgoing@[k1] == pre.outgoing@[k1]);
                    assert(post.outgoing@[k2].msg->Accepted_0.n == n);
                } else if k2 < len && k1 == len {
                    assert(post.outgoing@[k2] == pre.outgoing@[k2]);
                    assert(post.outgoing@[k1].msg->Accepted_0.n == n);
                }
            }
        },
    }
}

/// The entry element at offset `k` of a read with shape
/// `(hasc, elo, ehi, hass)` carries the log entry of virtual index
/// `elo + k`.
proof fn lemma_read_out_entry<T, S>(
    st: StorageState<T, S>,
    hasc: bool,
    elo: int,
    ehi: int,
    hass: bool,
    out: Seq<LogEntry<T, S>>,
    k: int,
)
    requires
        read_out_ok(st, (hasc, elo, ehi, hass), out),
        0 <= k < ehi - elo,
    ensures
        log_entry_ok(
            st,
            out[(if hasc {
                1int
            } else {
                0int
            }) + k],
            elo + k,
        ),
{
    let nc: int = if hasc {
        1int
    } else {
        0int
    };
    assert(nc <= nc + k < nc + (ehi - elo));
}

/// A bounded range read yields its elements in strict log order: an
/// `Undecided` element is never followed by a `Decided` one, the entry
/// elements carry consecutive log positions, and a `StopSign` element
/// appears only as the terminal element and only when the stop-sign is
/// decided.
pub proof fn lemma_read_ordered<T, S>(
    st: StorageState<T, S>,
    from: int,
    to: int,
    hasc: bool,
    elo: int,
    ehi: int,
    hass: bool,
    out: Seq<LogEntry<T, S>>,
)
    requires
        read_shape(st, from, to) == Some((hasc, elo, ehi, hass)),
        read_out_ok(st, (hasc, elo, ehi, hass), out),
    ensures
        forall|i: int, j: int|
            0 <= i < j < out.len() && (#[trigger] out[i]) is Undecided ==> !((
            #[trigger] out[j]) is Decided),
        forall|j: int|
            (if hasc {
                1int
            } else {
                0int
            }) <= j < (if hasc {
                1int
            } else {
                0int
            }) + (ehi - elo) ==> log_entry_ok(
                st,
                #[trigger] out[j],
                elo + j - (if hasc {
                    1int
                } else {
                    0int
                }),
            ),
        forall|i: int| 0 <= i < out.len() && (#[trigger] out[i]) is StopSign ==> st.ss_decided()
            && i == out.len() - 1,
{
    let nc: int = if hasc {
        1int
    } else {
        0int
    };
    assert forall|i: int, j: int|
        0 <= i < j < out.len() && (#[trigger] out[i]) is Undecided implies !((
    #[trigger] out[j]) is Decided) by {
        if out[j] is Decided {
            if hasc && i == 0 {
                assert(compacted_entry_ok(st, out[0]));
            }
            if hass && i == out.len() - 1 {
                assert(stop_sign_entry_ok(st, out[out.len() - 1]));
            }
            if hass && j == out.len() - 1 {
                assert(stop_sign_entry_ok(st, out[out.len() - 1]));
            }
            assert(nc <= i && i < nc + (ehi - elo));
            assert(nc <= j && j < nc + (ehi - elo));
            lemma_read_out_entry(st, hasc, elo, ehi, hass, out, i - nc);
            lemma_read_out_entry(st, hasc, elo, ehi, hass, out, j - nc);
            assert(elo + (i - nc) > st.decided_idx);
            assert(elo + (j - nc) <= st.decided_idx);
        }
    }
    assert forall|j: int|
        (if hasc {
            1int
        } else {
            0int
        }) <= j < (if hasc {
            1int
        } else {
            0int
        }) + (ehi - elo) implies log_entry_ok(
        st,
        out[j],
        elo + j - (if hasc {
            1int
        } else {
            0int
        }),
    ) by {
        lemma_read_out_entry(st, hasc, elo, ehi, hass, out, j - nc);
    }
    assert forall|i: int|
        0 <= i < out.len() && (#[trigger] out[i]) is StopSign implies st.ss_decided() && i
        == out.len() - 1 by {
        if hasc && i == 0 {
            assert(compacted_entry_ok(st, out[0]));
        } else if nc <= i < nc + (ehi - elo) {
            lemma_read_out_entry(st, hasc, elo, ehi, hass, out, i - nc);
        }
    }
}

/// Asking for the entries of an interval that is not fully inside
/// `[compacted_idx, vlen)` yields nothing: partial intervals are not
/// silently truncated.
pub proof fn lemma_get_entries_outside_empty<T, S>(st: StorageState<T, S>, from: int, to: int)
    requires
        !(st.compacted_idx <= from && from <= to && to <= st.vlen()),
    ensures
        st.ventries(from, to) == Seq::<T>::empty(),
{
}

/// Reading from the virtual log's end: with a decided stop-sign, an
/// open-ended read there produces exactly the single `StopSign` element;
/// without one (and with entries still present), such a read resolves to
/// nothing.
pub proof fn lemma_read_at_log_end<T, S>(st: StorageState<T, S>, out: Seq<LogEntry<T, S>>)
    requires
        st.wf(),
    ensures
        st.ss_decided() ==> read_shape(st, st.vlen(), resolve_to(st, ReadBound::Unbounded)) == Some(
            (false, st.vlen(), st.vlen(), true),
        ),
        st.ss_decided() && read_out_ok(st, (false, st.vlen(), st.vlen(), true), out) ==> out.len()
            == 1 && out[0] is StopSign,
        !st.ss_decided() && st.compacted_idx < st.vlen() ==> read_shape(
            st,
            st.vlen(),
            resolve_to(st, ReadBound::Unbounded),
        ) is None,
{
}

/// Handling the same `AcceptDecide` twice has the effect of handling it
/// once: a committed handling sets the tracker to the message's sequence
/// number, so the repeated delivery is classified `Outdated`, on which the
/// handler's contract says the replica is left unchanged.
pub proof fn lemma_acceptdecide_replay_outdated<I, T, S>(
    pre: SequencePaxos<I, T, S>,
    acc: AcceptDecide<T>,
    post: SequencePaxos<I, T, S>,
) where I: Storage<T, S>, S: Snapshot<T>
    requires
        acceptdecide_applied(pre, acc, post),
    ensures
        post.current_seq_num.check_spec(acc.seq_num) == MessageStatus::Outdated,
{
    lemma_replay_outdated(acc.seq_num);
}

/// Repeating `try_snapshot` at the decided index is a no-op: whatever the
/// first call left (nothing, when the index was already compacted, or the
/// compacted index advanced to the decided index), the repeated call's
/// target is at or below the compacted index, which is the case in which
/// `try_snapshot`'s contract says the state is left unchanged.
pub proof fn lemma_try_snapshot_idempotent<T, S>(pre: StorageState<T, S>, post: StorageState<T, S>)
    requires
        pre.compacted_idx <= pre.decided_idx,
        post.decided_idx == pre.decided_idx,
        (pre.decided_idx <= pre.compacted_idx && post == pre) || post.compacted_idx
            == pre.decided_idx,
    ensures
        post.decided_idx <= post.compacted_idx,
{
}

} // verus!

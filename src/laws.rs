use vstd::prelude::*;

use crate::collectors::{counters_map, expected_row, expected_rows, prior_of};
use crate::models::{ProcRow, ProcessCounters};
use crate::rate::{clamped_delta, floored_ms, Rate, ELAPSED_FLOOR_MS};

verus! {

broadcast use vstd::seq_lib::group_to_multiset_ensures;

/// Every row of a refresh whose process was not remembered from the previous
/// cycle reports zero read and write rates, whatever its counters hold.
pub proof fn lemma_first_sight_is_zero(
    rows: Seq<ProcRow>,
    processes: Seq<ProcessCounters>,
    prior: Map<i32, (u64, u64)>,
    window_pids: Set<i32>,
    elapsed_ms: u64,
)
    requires
        rows.to_multiset() == expected_rows(processes, prior, window_pids, elapsed_ms).to_multiset(),
    ensures
        forall|i: int|
            0 <= i < rows.len() && !prior.contains_key(#[trigger] rows[i].pid) ==> rows[i].read_bps.bytes
                == 0 && rows[i].write_bps.bytes == 0,
{
    let ex = expected_rows(processes, prior, window_pids, elapsed_ms);
    assert forall|i: int|
        0 <= i < rows.len() && !prior.contains_key(#[trigger] rows[i].pid) implies rows[i].read_bps.bytes
            == 0 && rows[i].write_bps.bytes == 0 by {
        assert(rows.to_multiset().count(rows[i]) > 0);
        assert(ex.contains(rows[i]));
        let k = choose|k: int| 0 <= k < ex.len() && ex[k] == rows[i];
        assert(ex[k] == expected_row(processes[k], prior, window_pids, elapsed_ms));
    }
}

/// With strictly increasing counters `c0 < c1 < c2` sampled after intervals
/// `t1` and `t2`, no shorter than the floor, the rates are exactly
/// `(c1 - c0) / t1` and `(c2 - c1) / t2`.
pub proof fn lemma_increasing_counters_exact(c0: u64, c1: u64, c2: u64, t1: u64, t2: u64)
    requires
        c0 < c1 < c2,
        t1 >= ELAPSED_FLOOR_MS,
        t2 >= ELAPSED_FLOOR_MS,
    ensures
        clamped_delta(c1, c0) == c1 - c0,
        clamped_delta(c2, c1) == c2 - c1,
        floored_ms(t1) == t1,
        floored_ms(t2) == t2,
{
}

/// The disk totals remembered from a snapshot with distinct identifiers are the
/// totals that the snapshot gave for each of its processes.
pub proof fn lemma_remembered_totals(s: Seq<ProcessCounters>, k: int)
    requires
        0 <= k < s.len(),
        forall|i: int, j: int| 0 <= i < j < s.len() ==> s[i].pid != s[j].pid,
    ensures
        counters_map(s).contains_key(s[k].pid),
        counters_map(s)[s[k].pid] == (s[k].read_bytes, s[k].written_bytes),
    decreases s.len(),
{
    if k < s.len() - 1 {
        let t = s.drop_last();
        assert forall|i: int, j: int| 0 <= i < j < t.len() implies t[i].pid != t[j].pid by {
            assert(t[i] == s[i] && t[j] == s[j]);
        }
        lemma_remembered_totals(t, k);
        assert(t[k] == s[k]);
        assert(s.last().pid != s[k].pid);
    }
}

/// A process seen in two consecutive snapshots gets, in the second, the clamped
/// difference of its counters between the two as its byte counts.
pub proof fn lemma_consecutive_samples(
    first: Seq<ProcessCounters>,
    k: int,
    later: ProcessCounters,
    window_pids: Set<i32>,
    elapsed_ms: u64,
)
    requires
        0 <= k < first.len(),
        forall|i: int, j: int| 0 <= i < j < first.len() ==> first[i].pid != first[j].pid,
        later.pid == first[k].pid,
    ensures
        expected_row(later, counters_map(first), window_pids, elapsed_ms).read_bps.bytes
            == clamped_delta(later.read_bytes, first[k].read_bytes),
        expected_row(later, counters_map(first), window_pids, elapsed_ms).write_bps.bytes
            == clamped_delta(later.written_bytes, first[k].written_bytes),
{
    lemma_remembered_totals(first, k);
    assert(prior_of(later, counters_map(first)) == (first[k].read_bytes, first[k].written_bytes));
}

/// A counter that went backwards gives a zero rate, never a negative or
/// wrapped-around one.
pub proof fn lemma_regression_is_zero(current: u64, prior: u64)
    requires
        current < prior,
    ensures
        clamped_delta(current, prior) == 0,
{
}

/// An elapsed time below the floor is replaced by the floor.
pub proof fn lemma_elapsed_floor(elapsed_ms: u64)
    requires
        elapsed_ms < ELAPSED_FLOOR_MS,
    ensures
        floored_ms(elapsed_ms) == ELAPSED_FLOOR_MS,
{
}

/// With a classifier that reports no window owner, every row is background.
pub proof fn lemma_no_classifier_no_foreground(
    rows: Seq<ProcRow>,
    processes: Seq<ProcessCounters>,
    prior: Map<i32, (u64, u64)>,
    elapsed_ms: u64,
)
    requires
        rows.to_multiset() == expected_rows(
            processes,
            prior,
            Set::<i32>::empty(),
            elapsed_ms,
        ).to_multiset(),
    ensures
        forall|i: int| 0 <= i < rows.len() ==> !(#[trigger] rows[i]).has_window,
{
    let ex = expected_rows(processes, prior, Set::<i32>::empty(), elapsed_ms);
    assert forall|i: int| 0 <= i < rows.len() implies !(#[trigger] rows[i]).has_window by {
        assert(rows.to_multiset().count(rows[i]) > 0);
        assert(ex.contains(rows[i]));
    }
}

/// A process sampled in three consecutive snapshots with strictly rising disk
/// counters `c0 < c1 < c2`, after intervals `t1` and `t2` no shorter than the
/// floor, gets the exact rates `(c1 - c0) / t1` and then `(c2 - c1) / t2`, for
/// reads and for writes. Identifiers are distinct within each snapshot.
pub proof fn lemma_rising_counters_rows(
    s0: Seq<ProcessCounters>,
    k0: int,
    s1: Seq<ProcessCounters>,
    k1: int,
    p2: ProcessCounters,
    window_pids: Set<i32>,
    t1: u64,
    t2: u64,
)
    requires
        0 <= k0 < s0.len(),
        0 <= k1 < s1.len(),
        forall|i: int, j: int| 0 <= i < j < s0.len() ==> s0[i].pid != s0[j].pid,
        forall|i: int, j: int| 0 <= i < j < s1.len() ==> s1[i].pid != s1[j].pid,
        s1[k1].pid == s0[k0].pid,
        p2.pid == s0[k0].pid,
        s0[k0].read_bytes < s1[k1].read_bytes < p2.read_bytes,
        s0[k0].written_bytes < s1[k1].written_bytes < p2.written_bytes,
        t1 >= ELAPSED_FLOOR_MS,
        t2 >= ELAPSED_FLOOR_MS,
    ensures
        expected_row(s1[k1], counters_map(s0), window_pids, t1).read_bps == (Rate {
            bytes: (s1[k1].read_bytes - s0[k0].read_bytes) as u64,
            elapsed_ms: t1,
        }),
        expected_row(s1[k1], counters_map(s0), window_pids, t1).write_bps == (Rate {
            bytes: (s1[k1].written_bytes - s0[k0].written_bytes) as u64,
            elapsed_ms: t1,
        }),
        expected_row(p2, counters_map(s1), window_pids, t2).read_bps == (Rate {
            bytes: (p2.read_bytes - s1[k1].read_bytes) as u64,
            elapsed_ms: t2,
        }),
        expected_row(p2, counters_map(s1), window_pids, t2).write_bps == (Rate {
            bytes: (p2.written_bytes - s1[k1].written_bytes) as u64,
            elapsed_ms: t2,
        }),
{
    lemma_consecutive_samples(s0, k0, s1[k1], window_pids, t1);
    lemma_consecutive_samples(s1, k1, p2, window_pids, t2);
}

/// With strictly rising network totals `c0 < c1 < c2` after intervals `t1` and
/// `t2` no shorter than the floor, the rates that a refresh sets are exactly
/// `(c1 - c0) / t1` and then `(c2 - c1) / t2`.
pub proof fn lemma_rising_network_rates(c0: u64, c1: u64, c2: u64, t1: u64, t2: u64)
    requires
        c0 < c1 < c2,
        t1 >= ELAPSED_FLOOR_MS,
        t2 >= ELAPSED_FLOOR_MS,
    ensures
        (Rate { bytes: clamped_delta(c1, c0), elapsed_ms: floored_ms(t1) }) == (Rate {
            bytes: (c1 - c0) as u64,
            elapsed_ms: t1,
        }),
        (Rate { bytes: clamped_delta(c2, c1), elapsed_ms: floored_ms(t2) }) == (Rate {
            bytes: (c2 - c1) as u64,
            elapsed_ms: t2,
        }),
{
}

} // verus!

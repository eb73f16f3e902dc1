use std::collections::HashMap;
use std::collections::HashSet;
use vstd::prelude::*;

use crate::models::{App, InterfaceTotals, Tool, ProcRow, ProcessCounters, Snapshot};
use crate::rate::{clamped_delta, delta_rate, floor_elapsed, floored_ms, Rate};
use crate::sorting::{sort_by_cpu_desc, sorted_by_cpu_desc, with_cpu};

verus! {

broadcast use vstd::std_specs::hash::group_hash_axioms, vstd::seq_lib::group_to_multiset_ensures;

/// `a + b`, held at `u64::MAX` instead of overflowing.
pub open spec fn sat_add(a: u64, b: u64) -> u64 {
    if a + b > u64::MAX {
        u64::MAX
    } else {
        (a + b) as u64
    }
}

/// Received bytes summed over all interfaces, saturating.
pub open spec fn total_received(s: Seq<InterfaceTotals>) -> u64
    decreases s.len(),
{
    if s.len() == 0 {
        0
    } else {
        sat_add(total_received(s.drop_last()), s.last().received)
    }
}

/// Transmitted bytes summed over all interfaces, saturating.
pub open spec fn total_transmitted(s: Seq<InterfaceTotals>) -> u64
    decreases s.len(),
{
    if s.len() == 0 {
        0
    } else {
        sat_add(total_transmitted(s.drop_last()), s.last().transmitted)
    }
}

/// The disk totals remembered after a snapshot: each process's last entry wins.
pub open spec fn counters_map(s: Seq<ProcessCounters>) -> Map<i32, (u64, u64)>
    decreases s.len(),
{
    if s.len() == 0 {
        Map::empty()
    } else {
        counters_map(s.drop_last()).insert(
            s.last().pid,
            (s.last().read_bytes, s.last().written_bytes),
        )
    }
}

/// The (read, written) totals a process is compared against: its remembered
/// totals, or its current ones when it was not seen before.
pub open spec fn prior_of(p: ProcessCounters, prior: Map<i32, (u64, u64)>) -> (u64, u64) {
    if prior.contains_key(p.pid) {
        prior[p.pid]
    } else {
        (p.read_bytes, p.written_bytes)
    }
}

/// The row that one process of a snapshot yields.
pub open spec fn expected_row(
    p: ProcessCounters,
    prior: Map<i32, (u64, u64)>,
    window_pids: Set<i32>,
    elapsed_ms: u64,
) -> ProcRow {
    ProcRow {
        pid: p.pid,
        name: p.name,
        cpu: p.cpu,
        memory_bytes: p.memory_bytes,
        read_bps: Rate {
            bytes: clamped_delta(p.read_bytes, prior_of(p, prior).0),
            elapsed_ms: floored_ms(elapsed_ms),
        },
        write_bps: Rate {
            bytes: clamped_delta(p.written_bytes, prior_of(p, prior).1),
            elapsed_ms: floored_ms(elapsed_ms),
        },
        has_window: window_pids.contains(p.pid),
    }
}

/// The rows of a snapshot, in snapshot order.
pub open spec fn expected_rows(
    s: Seq<ProcessCounters>,
    prior: Map<i32, (u64, u64)>,
    window_pids: Set<i32>,
    elapsed_ms: u64,
) -> Seq<ProcRow> {
    Seq::new(s.len(), |i: int| expected_row(s[i], prior, window_pids, elapsed_ms))
}

/// The elapsed time of a cycle at `now_ms`: the time since the last cycle, or the
/// nominal interval when there was none or the clock went backwards; floored.
pub open spec fn cycle_elapsed(now_ms: u64, last: Option<u64>, nominal_ms: u64) -> u64 {
    match last {
        Some(t) => if now_ms >= t {
            floored_ms((now_ms - t) as u64)
        } else {
            floored_ms(nominal_ms)
        },
        None => floored_ms(nominal_ms),
    }
}

/// `rows` are the rows of snapshot `processes` against the remembered totals
/// `prior`: the same rows, highest CPU first, rows of equal CPU in snapshot
/// order, each flagged when its process owns a window.
pub open spec fn rows_of_snapshot(
    rows: Seq<ProcRow>,
    processes: Seq<ProcessCounters>,
    prior: Map<i32, (u64, u64)>,
    window_pids: Set<i32>,
    elapsed_ms: u64,
) -> bool {
    let ex = expected_rows(processes, prior, window_pids, elapsed_ms);
    &&& rows.to_multiset() == ex.to_multiset()
    &&& rows.len() == processes.len()
    &&& sorted_by_cpu_desc(rows)
    &&& forall|c: u32| #[trigger] with_cpu(rows, c) == with_cpu(ex, c)
    &&& forall|i: int|
        0 <= i < rows.len() ==> #[trigger] rows[i].has_window == window_pids.contains(rows[i].pid)
}

/// `new` is `old` after one refresh cycle at `now_ms`. With a snapshot, the
/// network rates and then the rows are recomputed and the error is cleared; on a
/// failure its message is kept and rows, counters and rates stay as they were.
/// The cycle's time is recorded and the settings are kept either way.
pub open spec fn refreshed(
    old: App,
    new: App,
    now_ms: u64,
    snapshot: Result<Snapshot, String>,
    window_pids: Set<i32>,
) -> bool {
    let dt = cycle_elapsed(now_ms, old.last_refresh, old.refresh_ms);
    &&& new.last_refresh == Some(now_ms)
    &&& new.selected_tool == old.selected_tool
    &&& new.auto_refresh == old.auto_refresh
    &&& new.refresh_ms == old.refresh_ms
    &&& new.selected_pid == old.selected_pid
    &&& match snapshot {
        Ok(snap) => {
            &&& new.error is None
            &&& new.prev_net == (total_received(snap.interfaces@), total_transmitted(snap.interfaces@))
            &&& new.net_rx_bps == (Rate {
                bytes: clamped_delta(total_received(snap.interfaces@), old.prev_net.0),
                elapsed_ms: dt,
            })
            &&& new.net_tx_bps == (Rate {
                bytes: clamped_delta(total_transmitted(snap.interfaces@), old.prev_net.1),
                elapsed_ms: dt,
            })
            &&& rows_of_snapshot(new.processes@, snap.processes@, old.prev_proc_disk@, window_pids, dt)
            &&& new.prev_proc_disk@ == counters_map(snap.processes@)
        },
        Err(msg) => {
            &&& new.error == Some(msg)
            &&& new.processes == old.processes
            &&& new.prev_proc_disk == old.prev_proc_disk
            &&& new.prev_net == old.prev_net
            &&& new.net_rx_bps == old.net_rx_bps
            &&& new.net_tx_bps == old.net_tx_bps
        },
    }
}

/// Sums the cumulative totals of all interfaces, saturating.
pub fn sum_interfaces(interfaces: &Vec<InterfaceTotals>) -> (r: (u64, u64))
    ensures
        r == (total_received(interfaces@), total_transmitted(interfaces@)),
{
    let mut rx: u64 = 0;
    let mut tx: u64 = 0;
    let mut i: usize = 0;
    while i < interfaces.len()
        invariant
            i <= interfaces@.len(),
            rx == total_received(interfaces@.subrange(0, i as int)),
            tx == total_transmitted(interfaces@.subrange(0, i as int)),
        decreases interfaces@.len() - i,
    {
        proof {
            let next = interfaces@.subrange(0, i + 1);
            assert(next.drop_last() =~= interfaces@.subrange(0, i as int));
        }
        rx = rx.saturating_add(interfaces[i].received);
        tx = tx.saturating_add(interfaces[i].transmitted);
        i = i + 1;
    }
    proof {
        assert(interfaces@.subrange(0, i as int) =~= interfaces@);
    }
    (rx, tx)
}

/// Updates the network rates from the interfaces' current totals, against the
/// aggregate of the previous cycle.
pub fn refresh_network(app: &mut App, interfaces: &Vec<InterfaceTotals>, elapsed_ms: u64)
    ensures
        final(app).prev_net == (total_received(interfaces@), total_transmitted(interfaces@)),
        final(app).net_rx_bps == (Rate {
            bytes: clamped_delta(total_received(interfaces@), old(app).prev_net.0),
            elapsed_ms: floored_ms(elapsed_ms),
        }),
        final(app).net_tx_bps == (Rate {
            bytes: clamped_delta(total_transmitted(interfaces@), old(app).prev_net.1),
            elapsed_ms: floored_ms(elapsed_ms),
        }),
        final(app).selected_tool == old(app).selected_tool,
        final(app).processes == old(app).processes,
        final(app).error == old(app).error,
        final(app).prev_proc_disk == old(app).prev_proc_disk,
        final(app).last_refresh == old(app).last_refresh,
        final(app).auto_refresh == old(app).auto_refresh,
        final(app).refresh_ms == old(app).refresh_ms,
        final(app).selected_pid == old(app).selected_pid,
{
    let (rx_total, tx_total) = sum_interfaces(interfaces);
    let (prev_rx, prev_tx) = app.prev_net;
    app.net_rx_bps = delta_rate(rx_total, prev_rx, elapsed_ms);
    app.net_tx_bps = delta_rate(tx_total, prev_tx, elapsed_ms);
    app.prev_net = (rx_total, tx_total);
}

/// Builds one row per process, in snapshot order, against the remembered totals.
pub fn build_rows(
    processes: &Vec<ProcessCounters>,
    prior: &HashMap<i32, (u64, u64)>,
    window_pids: &HashSet<i32>,
    elapsed_ms: u64,
) -> (r: Vec<ProcRow>)
    ensures
        r@ == expected_rows(processes@, prior@, window_pids@, elapsed_ms),
{
    let dt = floor_elapsed(elapsed_ms);
    let mut rows: Vec<ProcRow> = Vec::with_capacity(processes.len());
    let mut i: usize = 0;
    while i < processes.len()
        invariant
            i <= processes@.len(),
            dt == floored_ms(elapsed_ms),
            rows@ =~= expected_rows(processes@, prior@, window_pids@, elapsed_ms).subrange(
                0,
                i as int,
            ),
        decreases processes@.len() - i,
    {
        let p = &processes[i];
        let (prev_r, prev_w) = match prior.get(&p.pid) {
            Some(v) => *v,
            None => (p.read_bytes, p.written_bytes),
        };
        let row = ProcRow {
            pid: p.pid,
            name: p.name.clone(),
            cpu: p.cpu,
            memory_bytes: p.memory_bytes,
            read_bps: delta_rate(p.read_bytes, prev_r, dt),
            write_bps: delta_rate(p.written_bytes, prev_w, dt),
            has_window: window_pids.contains(&p.pid),
        };
        proof {
            assert(floored_ms(dt) == floored_ms(elapsed_ms));
            assert(row == expected_row(processes@[i as int], prior@, window_pids@, elapsed_ms));
        }
        rows.push(row);
        i = i + 1;
    }
    rows
}

/// Remembers each process's current disk totals. Processes absent from the
/// snapshot are forgotten, so the memory stays bounded by the live processes.
pub fn remember_counters(processes: &Vec<ProcessCounters>) -> (r: HashMap<i32, (u64, u64)>)
    ensures
        r@ == counters_map(processes@),
{
    let mut m: HashMap<i32, (u64, u64)> = HashMap::new();
    let mut i: usize = 0;
    while i < processes.len()
        invariant
            i <= processes@.len(),
            m@ == counters_map(processes@.subrange(0, i as int)),
        decreases processes@.len() - i,
    {
        proof {
            let next = processes@.subrange(0, i + 1);
            assert(next.drop_last() =~= processes@.subrange(0, i as int));
        }
        m.insert(processes[i].pid, (processes[i].read_bytes, processes[i].written_bytes));
        i = i + 1;
    }
    proof {
        assert(processes@.subrange(0, i as int) =~= processes@);
    }
    m
}

/// Replaces the rows with those of a new snapshot, highest CPU first, and the
/// remembered disk totals with the snapshot's. Clears the error.
pub fn refresh_processes(
    app: &mut App,
    processes: &Vec<ProcessCounters>,
    window_pids: &HashSet<i32>,
    elapsed_ms: u64,
)
    ensures
        rows_of_snapshot(
            final(app).processes@,
            processes@,
            old(app).prev_proc_disk@,
            window_pids@,
            elapsed_ms,
        ),
        final(app).prev_proc_disk@ == counters_map(processes@),
        final(app).error is None,
        final(app).selected_tool == old(app).selected_tool,
        final(app).prev_net == old(app).prev_net,
        final(app).net_rx_bps == old(app).net_rx_bps,
        final(app).net_tx_bps == old(app).net_tx_bps,
        final(app).last_refresh == old(app).last_refresh,
        final(app).auto_refresh == old(app).auto_refresh,
        final(app).refresh_ms == old(app).refresh_ms,
        final(app).selected_pid == old(app).selected_pid,
{
    app.error = None;
    let rows = build_rows(processes, &app.prev_proc_disk, window_pids, elapsed_ms);
    let sorted = sort_by_cpu_desc(rows);
    proof {
        let ex = expected_rows(processes@, old(app).prev_proc_disk@, window_pids@, elapsed_ms);
        assert forall|i: int| 0 <= i < sorted@.len() implies #[trigger] sorted@[i].has_window
            == window_pids@.contains(sorted@[i].pid) by {
            assert(sorted@.to_multiset().count(sorted@[i]) > 0);
            assert(ex.contains(sorted@[i]));
        }
        assert forall|c: u32| #[trigger] with_cpu(sorted@, c) == with_cpu(ex, c) by {
            assert(with_cpu(sorted@, c) == with_cpu(rows@, c));
        }
    }
    app.prev_proc_disk = remember_counters(processes);
    app.processes = sorted;
}

/// The elapsed time of a cycle at `now_ms`, floored; falls back to the nominal
/// interval when there was no earlier cycle or the clock went backwards.
pub fn elapsed_since(now_ms: u64, last: Option<u64>, nominal_ms: u64) -> (r: u64)
    ensures
        r == cycle_elapsed(now_ms, last, nominal_ms),
{
    match last {
        Some(t) => if now_ms >= t {
            floor_elapsed(now_ms - t)
        } else {
            floor_elapsed(nominal_ms)
        },
        None => floor_elapsed(nominal_ms),
    }
}

/// The identifiers of processes owning a visible top-level window, where the
/// platform cannot tell: none, so every process counts as background.
pub fn pids_with_top_level_windows() -> (r: HashSet<i32>)
    ensures
        r@ == Set::<i32>::empty(),
{
    HashSet::new()
}

/// One refresh cycle at time `now_ms`. On a snapshot, network rates then
/// process rows are recomputed; on a failure the message is kept and all rows
/// and counters stay as they were. The cycle's time is recorded either way.
pub fn refresh_everything(
    app: &mut App,
    now_ms: u64,
    snapshot: Result<Snapshot, String>,
    window_pids: &HashSet<i32>,
)
    ensures
        refreshed(*old(app), *final(app), now_ms, snapshot, window_pids@),
{
    let dt = elapsed_since(now_ms, app.last_refresh, app.refresh_ms);
    proof {
        assert(floored_ms(dt) == dt);
    }
    match snapshot {
        Ok(snap) => {
            refresh_network(app, &snap.interfaces, dt);
            refresh_processes(app, &snap.processes, window_pids, dt);
        },
        Err(msg) => {
            app.error = Some(msg);
        },
    }
    app.last_refresh = Some(now_ms);
}

/// A new application that has taken its first sample at `now_ms`.
pub fn init_app(now_ms: u64, snapshot: Result<Snapshot, String>, window_pids: &HashSet<i32>) -> (r: App)
    ensures
        r.last_refresh == Some(now_ms),
        r.refresh_ms == crate::models::DEFAULT_REFRESH_MS,
        r.auto_refresh,
        r.selected_pid is None,
        r.selected_tool == Tool::Processes,
        match snapshot {
            Ok(snap) => {
                &&& r.error is None
                &&& r.prev_net == (
                    total_received(snap.interfaces@),
                    total_transmitted(snap.interfaces@),
                )
                &&& r.net_rx_bps == (Rate {
                    bytes: total_received(snap.interfaces@),
                    elapsed_ms: crate::rate::ELAPSED_FLOOR_MS,
                })
                &&& r.net_tx_bps == (Rate {
                    bytes: total_transmitted(snap.interfaces@),
                    elapsed_ms: crate::rate::ELAPSED_FLOOR_MS,
                })
                &&& rows_of_snapshot(
                    r.processes@,
                    snap.processes@,
                    Map::empty(),
                    window_pids@,
                    crate::rate::ELAPSED_FLOOR_MS,
                )
                &&& r.prev_proc_disk@ == counters_map(snap.processes@)
            },
            Err(msg) => {
                &&& r.error == Some(msg)
                &&& r.processes@.len() == 0
                &&& r.prev_proc_disk@ == Map::<i32, (u64, u64)>::empty()
                &&& r.prev_net == (0u64, 0u64)
                &&& r.net_rx_bps == Rate::zero_spec()
                &&& r.net_tx_bps == Rate::zero_spec()
            },
        },
{
    let mut app = App::new();
    app.last_refresh = Some(now_ms);
    refresh_everything(&mut app, now_ms, snapshot, window_pids);
    app
}

impl App {
    /// Runs one refresh cycle on this application; see `refresh_everything`.
    pub fn refresh_everything(
        &mut self,
        now_ms: u64,
        snapshot: Result<Snapshot, String>,
        window_pids: &HashSet<i32>,
    )
        ensures
            refreshed(*old(self), *final(self), now_ms, snapshot, window_pids@),
    {
        refresh_everything(self, now_ms, snapshot, window_pids);
    }
}

} // verus!

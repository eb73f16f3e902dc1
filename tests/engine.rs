use std::collections::HashSet;

use proc_monitor::collectors::{
    build_rows, elapsed_since, init_app, pids_with_top_level_windows, refresh_everything,
    refresh_network, refresh_processes, remember_counters, sum_interfaces,
};
use proc_monitor::models::{App, InterfaceTotals, ProcessCounters, Snapshot, Tool};
use proc_monitor::rate::{delta_rate, floor_elapsed, Rate, ELAPSED_FLOOR_MS};
use proc_monitor::sorting::sort_by_cpu_desc;

fn proc_of(pid: i32, cpu: u32, read: u64, written: u64) -> ProcessCounters {
    ProcessCounters {
        pid,
        name: format!("p{}", pid),
        cpu,
        memory_bytes: 4096,
        read_bytes: read,
        written_bytes: written,
    }
}

fn snapshot(processes: Vec<ProcessCounters>, interfaces: Vec<InterfaceTotals>) -> Snapshot {
    Snapshot { processes, interfaces }
}

fn row_of(app: &App, pid: i32) -> &proc_monitor::models::ProcRow {
    app.processes.iter().find(|r| r.pid == pid).unwrap()
}

#[test]
fn rate_of_increase() {
    let r = delta_rate(1500, 500, 1000);
    assert_eq!(r, Rate { bytes: 1000, elapsed_ms: 1000 });
    assert_eq!(r.bytes_per_sec(), 1000);
}

#[test]
fn regression_clamps_to_zero() {
    let r = delta_rate(10, 1000, 1000);
    assert_eq!(r.bytes, 0);
    assert_eq!(r.bytes_per_sec(), 0);
}

#[test]
fn elapsed_below_floor_uses_floor() {
    assert_eq!(floor_elapsed(10), ELAPSED_FLOOR_MS);
    let r = delta_rate(1000, 0, 10);
    assert_eq!(r.elapsed_ms, 250);
    assert_eq!(r.bytes_per_sec(), 4000);
    assert_eq!(floor_elapsed(1000), 1000);
}

#[test]
fn bytes_per_sec_rounds_down() {
    let r = Rate { bytes: 1000, elapsed_ms: 300 };
    assert_eq!(r.bytes_per_sec(), 3333);
    let big = Rate { bytes: u64::MAX, elapsed_ms: 250 };
    assert_eq!(big.bytes_per_sec(), (u64::MAX as u128) * 4);
}

#[test]
fn first_sight_rate_is_zero() {
    let mut app = App::new();
    let procs = vec![proc_of(7, 100, 5_000_000, 9_000_000)];
    refresh_processes(&mut app, &procs, &HashSet::new(), 1000);
    let row = row_of(&app, 7);
    assert_eq!(row.read_bps.bytes, 0);
    assert_eq!(row.write_bps.bytes, 0);
    assert_eq!(row.name, "p7");
    assert_eq!(row.memory_bytes, 4096);
}

#[test]
fn increasing_counters_give_exact_rates() {
    let mut app = App::new();
    refresh_processes(&mut app, &vec![proc_of(1, 0, 100, 10)], &HashSet::new(), 1000);
    refresh_processes(&mut app, &vec![proc_of(1, 0, 1100, 510)], &HashSet::new(), 1000);
    let row = row_of(&app, 1);
    assert_eq!(row.read_bps, Rate { bytes: 1000, elapsed_ms: 1000 });
    assert_eq!(row.write_bps, Rate { bytes: 500, elapsed_ms: 1000 });
    refresh_processes(&mut app, &vec![proc_of(1, 0, 4100, 610)], &HashSet::new(), 2000);
    let row = row_of(&app, 1);
    assert_eq!(row.read_bps.bytes_per_sec(), 1500);
    assert_eq!(row.write_bps.bytes_per_sec(), 50);
}

#[test]
fn counter_reset_gives_zero_rate() {
    let mut app = App::new();
    refresh_processes(&mut app, &vec![proc_of(3, 0, 1000, 1000)], &HashSet::new(), 1000);
    refresh_processes(&mut app, &vec![proc_of(3, 0, 10, 2000)], &HashSet::new(), 1000);
    let row = row_of(&app, 3);
    assert_eq!(row.read_bps.bytes, 0);
    assert_eq!(row.write_bps.bytes, 1000);
}

#[test]
fn tiny_elapsed_is_floored_in_rows() {
    let mut app = App::new();
    refresh_processes(&mut app, &vec![proc_of(3, 0, 0, 0)], &HashSet::new(), 10);
    refresh_processes(&mut app, &vec![proc_of(3, 0, 1000, 0)], &HashSet::new(), 10);
    let row = row_of(&app, 3);
    assert_eq!(row.read_bps.elapsed_ms, 250);
    assert_eq!(row.read_bps.bytes_per_sec(), 4000);
}

#[test]
fn network_aggregates_three_interfaces() {
    let mut app = App::new();
    app.prev_net = (300, 0);
    let ifaces = vec![
        InterfaceTotals { received: 100, transmitted: 1 },
        InterfaceTotals { received: 200, transmitted: 2 },
        InterfaceTotals { received: 300, transmitted: 3 },
    ];
    refresh_network(&mut app, &ifaces, 1000);
    assert_eq!(app.prev_net, (600, 6));
    assert_eq!(app.net_rx_bps.bytes_per_sec(), 300);
    assert_eq!(app.net_tx_bps.bytes_per_sec(), 6);
}

#[test]
fn network_sum_saturates() {
    let ifaces = vec![
        InterfaceTotals { received: u64::MAX, transmitted: 5 },
        InterfaceTotals { received: 10, transmitted: 7 },
    ];
    assert_eq!(sum_interfaces(&ifaces), (u64::MAX, 12));
    assert_eq!(sum_interfaces(&Vec::new()), (0, 0));
}

#[test]
fn network_drop_gives_zero_rate() {
    let mut app = App::new();
    app.prev_net = (1000, 1000);
    refresh_network(&mut app, &vec![InterfaceTotals { received: 400, transmitted: 1500 }], 500);
    assert_eq!(app.net_rx_bps.bytes, 0);
    assert_eq!(app.net_tx_bps, Rate { bytes: 500, elapsed_ms: 500 });
    assert_eq!(app.prev_net, (400, 1500));
}

#[test]
fn rows_sorted_by_cpu_descending() {
    let mut app = App::new();
    let procs = vec![
        proc_of(1, 5_000, 0, 0),
        proc_of(2, 90_000, 0, 0),
        proc_of(3, 90_000, 0, 0),
        proc_of(4, 0, 0, 0),
    ];
    refresh_processes(&mut app, &procs, &HashSet::new(), 1000);
    let pids: Vec<i32> = app.processes.iter().map(|r| r.pid).collect();
    assert_eq!(pids, vec![2, 3, 1, 4]);
    let cpus: Vec<u32> = app.processes.iter().map(|r| r.cpu).collect();
    assert_eq!(cpus, vec![90_000, 90_000, 5_000, 0]);
}

#[test]
fn sort_keeps_every_row() {
    let rows = build_rows(
        &vec![proc_of(9, 1, 0, 0), proc_of(8, 3, 0, 0), proc_of(7, 2, 0, 0), proc_of(6, 3, 0, 0)],
        &remember_counters(&Vec::new()),
        &HashSet::new(),
        1000,
    );
    let sorted = sort_by_cpu_desc(rows);
    let pids: Vec<i32> = sorted.iter().map(|r| r.pid).collect();
    assert_eq!(pids, vec![8, 6, 7, 9]);
    assert!(sort_by_cpu_desc(Vec::new()).is_empty());
}

#[test]
fn empty_classifier_marks_all_background() {
    let mut app = App::new();
    let procs = vec![proc_of(1, 10, 0, 0), proc_of(2, 20, 0, 0), proc_of(3, 30, 0, 0)];
    let none = pids_with_top_level_windows();
    assert!(none.is_empty());
    refresh_processes(&mut app, &procs, &none, 1000);
    assert_eq!(app.processes.len(), 3);
    assert!(app.processes.iter().all(|r| !r.has_window));
}

#[test]
fn classifier_set_marks_window_owners() {
    let mut app = App::new();
    let procs = vec![proc_of(1, 10, 0, 0), proc_of(2, 20, 0, 0)];
    let mut owners = HashSet::new();
    owners.insert(2);
    refresh_processes(&mut app, &procs, &owners, 1000);
    assert!(row_of(&app, 2).has_window);
    assert!(!row_of(&app, 1).has_window);
}

#[test]
fn failed_snapshot_keeps_rows_then_success_replaces() {
    let mut app = init_app(
        0,
        Ok(snapshot(vec![proc_of(1, 10, 0, 0), proc_of(2, 20, 0, 0)], vec![])),
        &HashSet::new(),
    );
    assert!(app.error.is_none());
    assert_eq!(app.processes.len(), 2);

    app.refresh_everything(1000, Err("process table unavailable".to_string()), &HashSet::new());
    assert_eq!(app.error, Some("process table unavailable".to_string()));
    assert_eq!(app.processes.len(), 2);
    assert_eq!(app.last_refresh, Some(1000));

    app.refresh_everything(2000, Ok(snapshot(vec![proc_of(5, 1, 0, 0)], vec![])), &HashSet::new());
    assert!(app.error.is_none());
    let pids: Vec<i32> = app.processes.iter().map(|r| r.pid).collect();
    assert_eq!(pids, vec![5]);
}

#[test]
fn elapsed_follows_clock_and_falls_back() {
    assert_eq!(elapsed_since(5000, Some(3500), 1500), 1500);
    assert_eq!(elapsed_since(5000, Some(4990), 1500), 250);
    assert_eq!(elapsed_since(1000, Some(3000), 1500), 1500);
    assert_eq!(elapsed_since(1000, Some(3000), 100), 250);
    assert_eq!(elapsed_since(1000, None, 2000), 2000);
}

#[test]
fn refresh_cycle_uses_time_since_last() {
    let mut app = App::new();
    app.last_refresh = Some(1000);
    let first = snapshot(vec![proc_of(4, 0, 100, 0)], vec![InterfaceTotals { received: 0, transmitted: 0 }]);
    refresh_everything(&mut app, 1000, Ok(first), &HashSet::new());
    let second = snapshot(vec![proc_of(4, 0, 2100, 0)], vec![InterfaceTotals { received: 4000, transmitted: 0 }]);
    refresh_everything(&mut app, 3000, Ok(second), &HashSet::new());
    assert_eq!(row_of(&app, 4).read_bps, Rate { bytes: 2000, elapsed_ms: 2000 });
    assert_eq!(app.net_rx_bps.bytes_per_sec(), 2000);
    assert_eq!(app.last_refresh, Some(3000));
}

#[test]
fn vanished_processes_are_forgotten() {
    let procs = vec![proc_of(1, 0, 10, 20), proc_of(2, 0, 30, 40)];
    let m = remember_counters(&procs);
    assert_eq!(m.len(), 2);
    assert_eq!(m.get(&2), Some(&(30, 40)));

    let mut app = App::new();
    refresh_processes(&mut app, &procs, &HashSet::new(), 1000);
    refresh_processes(&mut app, &vec![proc_of(2, 0, 50, 40)], &HashSet::new(), 1000);
    assert_eq!(app.prev_proc_disk.len(), 1);
    assert!(!app.prev_proc_disk.contains_key(&1));
    // pid 1 comes back: it is new again, so its rate starts at zero
    refresh_processes(&mut app, &vec![proc_of(1, 0, 5000, 20)], &HashSet::new(), 1000);
    assert_eq!(row_of(&app, 1).read_bps.bytes, 0);
}

#[test]
fn fresh_app_defaults() {
    let app = App::new();
    assert!(app.selected_tool == Tool::Processes);
    assert!(app.processes.is_empty());
    assert!(app.auto_refresh);
    assert_eq!(app.refresh_ms, 1500);
    assert_eq!(app.last_refresh, None);
    assert_eq!(app.net_rx_bps, Rate::zero());
}

#[test]
fn init_app_first_network_sample_against_zero() {
    let app = init_app(
        100,
        Ok(snapshot(vec![], vec![InterfaceTotals { received: 1000, transmitted: 500 }])),
        &HashSet::new(),
    );
    assert_eq!(app.net_rx_bps, Rate { bytes: 1000, elapsed_ms: 250 });
    assert_eq!(app.net_tx_bps.bytes_per_sec(), 2000);
    assert_eq!(app.last_refresh, Some(100));
}

#[test]
fn init_app_settings_and_failed_first_sample() {
    let app = init_app(50, Err("no table".to_string()), &HashSet::new());
    assert!(app.selected_tool == Tool::Processes);
    assert_eq!(app.error, Some("no table".to_string()));
    assert!(app.processes.is_empty());
    assert_eq!(app.net_rx_bps, Rate::zero());
    assert_eq!(app.net_tx_bps, Rate::zero());
    assert_eq!(app.prev_net, (0, 0));
    assert_eq!(app.refresh_ms, 1500);
    assert!(app.auto_refresh);
    assert_eq!(app.selected_pid, None);
}

#[test]
fn equal_cpu_rows_keep_snapshot_order() {
    let mut app = App::new();
    let procs = vec![
        proc_of(40, 7, 0, 0),
        proc_of(10, 7, 0, 0),
        proc_of(30, 9, 0, 0),
        proc_of(20, 7, 0, 0),
    ];
    refresh_processes(&mut app, &procs, &HashSet::new(), 1000);
    let pids: Vec<i32> = app.processes.iter().map(|r| r.pid).collect();
    assert_eq!(pids, vec![30, 40, 10, 20]);
}

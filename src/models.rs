use std::collections::HashMap;
use vstd::prelude::*;

use crate::rate::Rate;

verus! {

/// The view selected in the side panel.
#[derive(Clone, Copy, Debug, PartialEq, Eq, Structural)]
pub enum Tool {
    Processes,
    Services,
    Logs,
}

/// One process as the snapshot source reports it: cumulative counters, not rates.
#[derive(Clone, Debug)]
pub struct ProcessCounters {
    pub pid: i32,
    pub name: String,
    /// CPU utilisation in thousandths of a percent, as normalised by the source.
    pub cpu: u32,
    pub memory_bytes: u64,
    /// Bytes read from disk since the process started.
    pub read_bytes: u64,
    /// Bytes written to disk since the process started.
    pub written_bytes: u64,
}

/// Cumulative byte totals of one network interface.
#[derive(Clone, Copy, Debug, PartialEq, Eq, Structural)]
pub struct InterfaceTotals {
    pub received: u64,
    pub transmitted: u64,
}

/// One full enumeration of processes and network interfaces.
#[derive(Clone, Debug)]
pub struct Snapshot {
    pub processes: Vec<ProcessCounters>,
    pub interfaces: Vec<InterfaceTotals>,
}

/// One displayed row: a process with its disk rates and its window flag.
#[derive(Clone, Debug)]
pub struct ProcRow {
    pub pid: i32,
    pub name: String,
    /// CPU utilisation in thousandths of a percent.
    pub cpu: u32,
    pub memory_bytes: u64,
    pub read_bps: Rate,
    pub write_bps: Rate,
    /// The process owns a visible, unowned, titled top-level window.
    pub has_window: bool,
}

/// Nominal refresh interval of a new application, in milliseconds.
pub const DEFAULT_REFRESH_MS: u64 = 1500;

/// The sampling engine's whole state together with the user's settings.
pub struct App {
    pub selected_tool: Tool,
    /// Rows of the last successful cycle, highest CPU first.
    pub processes: Vec<ProcRow>,
    /// Message of the last failed snapshot, cleared by the next success.
    pub error: Option<String>,
    /// Last seen (read, written) disk totals of each process of the last snapshot.
    pub prev_proc_disk: HashMap<i32, (u64, u64)>,
    /// Last seen (received, transmitted) totals summed over all interfaces.
    pub prev_net: (u64, u64),
    pub net_rx_bps: Rate,
    pub net_tx_bps: Rate,
    /// Time of the last refresh cycle, in milliseconds on the caller's clock.
    pub last_refresh: Option<u64>,
    pub auto_refresh: bool,
    /// Nominal refresh interval, in milliseconds.
    pub refresh_ms: u64,
    pub selected_pid: Option<i32>,
}

impl App {
    /// An engine that has seen nothing yet.
    pub open spec fn is_fresh(self) -> bool {
        &&& self.selected_tool == Tool::Processes
        &&& self.processes@.len() == 0
        &&& self.error is None
        &&& self.prev_proc_disk@ == Map::<i32, (u64, u64)>::empty()
        &&& self.prev_net == (0u64, 0u64)
        &&& self.net_rx_bps == Rate::zero_spec()
        &&& self.net_tx_bps == Rate::zero_spec()
        &&& self.last_refresh is None
        &&& self.auto_refresh
        &&& self.refresh_ms == DEFAULT_REFRESH_MS
        &&& self.selected_pid is None
    }

    /// An application with no sample taken yet.
    pub fn new() -> (r: App)
        ensures
            r.is_fresh(),
    {
        App {
            selected_tool: Tool::Processes,
            processes: Vec::new(),
            error: None,
            prev_proc_disk: HashMap::new(),
            prev_net: (0, 0),
            net_rx_bps: Rate::zero(),
            net_tx_bps: Rate::zero(),
            last_refresh: None,
            auto_refresh: true,
            refresh_ms: DEFAULT_REFRESH_MS,
            selected_pid: None,
        }
    }
}

} // verus!

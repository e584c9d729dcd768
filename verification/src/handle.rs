//! The stateful OS metrics handle and its staged refresh protocol.
//!
//! The handle wraps the operating system's accounting interfaces.  CPU
//! readings are deltas against the previous refresh, so the very first
//! refresh after creation has no baseline and yields a meaningless
//! value: the handle starts cold, one throw-away CPU refresh warms it,
//! and only a warmed handle may be refreshed for a real sample.

use vstd::prelude::*;

use crate::model::MemoryStats;

verus! {

#[verifier::external_type_specification]
#[verifier::external_body]
pub struct ExSystem(sysinfo::System);

/// Relies on sysinfo::System::new: a handle with nothing refreshed yet.
#[verifier::external_body]
fn new_system() -> sysinfo::System {
    sysinfo::System::new()
}

/// Relies on sysinfo::System::refresh_cpu_specifics: recomputes per-core
/// usage against the previous refresh and stores the new baseline.
#[verifier::external_body]
fn refresh_cpu_raw(sys: &mut sysinfo::System) {
    sys.refresh_cpu_specifics(sysinfo::CpuRefreshKind::everything());
}

/// Relies on sysinfo::System::refresh_memory_specifics: re-reads RAM and
/// swap occupancy.
#[verifier::external_body]
fn refresh_memory_raw(sys: &mut sysinfo::System) {
    sys.refresh_memory_specifics(sysinfo::MemoryRefreshKind::new().with_ram().with_swap());
}

/// Relies on sysinfo::System::refresh_processes_specifics: re-reads the
/// process table with CPU and memory detail, dropping dead processes.
#[verifier::external_body]
fn refresh_processes_raw(sys: &mut sysinfo::System) {
    sys.refresh_processes_specifics(
        sysinfo::ProcessesToUpdate::All,
        true,
        sysinfo::ProcessRefreshKind::new().with_cpu().with_memory(),
    );
}

/// Relies on sysinfo::System::total_memory: total RAM in bytes.
#[verifier::external_body]
fn total_memory_raw(sys: &sysinfo::System) -> u64 {
    sys.total_memory()
}

/// Relies on sysinfo::System::used_memory: used RAM in bytes.
#[verifier::external_body]
fn used_memory_raw(sys: &sysinfo::System) -> u64 {
    sys.used_memory()
}

/// Relies on sysinfo::System::total_swap: total swap in bytes.
#[verifier::external_body]
fn total_swap_raw(sys: &sysinfo::System) -> u64 {
    sys.total_swap()
}

/// Relies on sysinfo::System::used_swap: used swap in bytes.
#[verifier::external_body]
fn used_swap_raw(sys: &sysinfo::System) -> u64 {
    sys.used_swap()
}

/// The long-lived metrics handle: created once per run, reused for every
/// sample, never duplicated.  The caller serializes access to it; one
/// sampling tick's refresh-then-read sequence happens under one critical
/// section.
///
/// The `sys` field is exposed so that the surrounding program can read
/// the per-core and per-process usage values the refreshes computed;
/// those readings are fractional and are handed back to this library as
/// integer hundredths of a percent.
pub struct MetricsHandle {
    pub sys: sysinfo::System,
    warmed: bool,
}

impl MetricsHandle {
    /// Whether a CPU baseline exists: true once at least one CPU refresh
    /// has run, so the next refresh yields meaningful usage deltas.
    pub closed spec fn is_warmed(self) -> bool {
        self.warmed
    }

    /// A fresh, cold handle: no baseline, CPU readings not yet
    /// trustworthy.
    pub fn new() -> (h: Self)
        ensures
            !h.is_warmed(),
    {
        MetricsHandle { sys: new_system(), warmed: false }
    }

    /// Runtime view of the warm-up state.
    pub fn check_warmed(&self) -> (b: bool)
        ensures
            b == self.is_warmed(),
    {
        self.warmed
    }

    /// The throw-away CPU refresh that establishes the first baseline.
    /// The caller waits a warm-up delay after this call before taking
    /// the first real sample.
    pub fn warm_up_refresh(&mut self)
        ensures
            final(self).is_warmed(),
    {
        refresh_cpu_raw(&mut self.sys);
        self.warmed = true;
    }

    /// One tick's refresh stage, to run under the handle's critical
    /// section: memory, then CPU, then (when process detail was
    /// requested) the process table.  Only a warmed handle may be
    /// sampled, and sampling keeps the handle warm: the refresh it
    /// performs is the next tick's baseline.
    pub fn refresh_for_tick(&mut self, include_processes: bool)
        requires
            old(self).is_warmed(),
        ensures
            final(self).is_warmed(),
    {
        refresh_memory_raw(&mut self.sys);
        refresh_cpu_raw(&mut self.sys);
        if include_processes {
            refresh_processes_raw(&mut self.sys);
        }
    }

    /// The memory readings of the latest refresh, as one record.
    pub fn read_memory(&self) -> (m: MemoryStats) {
        MemoryStats {
            total: total_memory_raw(&self.sys),
            used: used_memory_raw(&self.sys),
            swap_total: total_swap_raw(&self.sys),
            swap_used: used_swap_raw(&self.sys),
        }
    }
}

} // verus!

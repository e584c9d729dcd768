//! Assembly of one snapshot per sampling tick.
//!
//! The refresh stage runs first, under the handle's critical section
//! (`MetricsHandle::refresh_for_tick`); the caller then reads the
//! per-core and per-process usage values and hands them in here as
//! integer hundredths of a percent.  Assembly enumerates disks and
//! interfaces itself — fresh local state, outside the critical section
//! — computes the rounded mean and the process ranking, and builds the
//! immutable record.

use vstd::prelude::*;

use crate::model::cpu_seq_ok;
use crate::model::proc_seq_ok;
use crate::model::MemoryStats;
use crate::model::OsInfo;
use crate::model::ProcessStats;
use crate::model::Snapshot;

verus! {

/// Build one complete snapshot from this tick's readings.
///
/// `processes` is `None` when process detail was not requested; the
/// snapshot then carries no process field at all.  `os` is attached
/// unchanged, so the once-per-run policy of daemon mode decides it.
pub fn assemble_snapshot(
    cpu: Vec<u32>,
    memory: MemoryStats,
    processes: Option<Vec<ProcessStats>>,
    os: Option<OsInfo>,
) -> (s: Snapshot)
    requires
        cpu_seq_ok(cpu@),
        processes matches Some(ps) ==> proc_seq_ok(ps@),
    ensures
        s.wf(),
        s.cpu@ == cpu@,
        s.cpu_avg == crate::stats::rounded_mean(cpu@),
        s.memory == memory,
        s.os == os,
        s.processes is Some <==> processes is Some,
        processes matches Some(ps) ==> s.processes matches Some(rs)
            && crate::rank::is_top_ranked(rs@, ps@),
{
    let cpu_avg = crate::stats::cpu_average(&cpu);
    let ranked_processes = match processes {
        Some(ps) => Some(crate::rank::top_processes(ps)),
        None => None,
    };
    let disks = crate::enumerate::enumerate_disks();
    let network = crate::enumerate::enumerate_networks();
    Snapshot { cpu, cpu_avg, memory, disks, network, processes: ranked_processes, os }
}

} // verus!

//! The snapshot data model: one immutable record per sampling tick.

use vstd::prelude::*;

verus! {

/// One hundred percent, expressed in hundredths of a percent.
pub const FULL_SCALE: u32 = 10000;

/// Largest number of entries a process ranking may carry.
pub const TOP_N: usize = 10;

/// Static identity of the host operating system; invariant for the
/// process lifetime.
pub struct OsInfo {
    pub name: String,
    pub kernel: String,
    pub version: String,
    pub arch: String,
}

/// RAM and swap occupancy, raw byte counts.
pub struct MemoryStats {
    pub total: u64,
    pub used: u64,
    pub swap_total: u64,
    pub swap_used: u64,
}

/// One mounted volume with its capacity, raw byte counts.
pub struct DiskStats {
    pub name: String,
    pub available: u64,
    pub total: u64,
}

/// One network interface with its cumulative counters.
pub struct NetStats {
    pub interface: String,
    pub rx_bytes: u64,
    pub tx_bytes: u64,
    pub rx_packets: u64,
    pub tx_packets: u64,
    pub rx_errors: u64,
    pub tx_errors: u64,
}

/// One process with its memory footprint and CPU share, the latter in
/// hundredths of a percent.
pub struct ProcessStats {
    pub pid: u32,
    pub name: String,
    pub exe: String,
    pub memory: u64,
    pub cpu: u32,
}

/// A percentage in hundredths of a percent lies on the 0..=100.00 scale.
pub open spec fn percent_ok(p: u32) -> bool {
    p <= FULL_SCALE
}

/// Every per-core percentage lies on the scale.
pub open spec fn cpu_seq_ok(s: Seq<u32>) -> bool {
    forall|i: int| 0 <= i < s.len() ==> percent_ok(#[trigger] s[i])
}

/// Every per-process percentage lies on the scale.
pub open spec fn proc_seq_ok(s: Seq<ProcessStats>) -> bool {
    forall|i: int| 0 <= i < s.len() ==> percent_ok(#[trigger] s[i].cpu)
}

/// A volume is reported only when it has any capacity at all; entries
/// with zero total are pseudo-devices and are filtered out.
pub open spec fn disk_kept(d: DiskStats) -> bool {
    d.total > 0
}

/// An interface is reported only when it has ever moved traffic in at
/// least one direction.
pub open spec fn net_kept(n: NetStats) -> bool {
    n.rx_bytes > 0 || n.tx_bytes > 0
}

/// Process entries sorted by CPU share, highest first.
pub open spec fn ranked(s: Seq<ProcessStats>) -> bool {
    forall|i: int, j: int| #![trigger s[i], s[j]]
        0 <= i <= j < s.len() ==> s[i].cpu >= s[j].cpu
}

/// One snapshot of the host, fully constructed before it is handed on.
///
/// `processes` is absent (not an empty list) when process detail was not
/// requested; `os` is attached according to the once-per-run policy of
/// daemon mode.
pub struct Snapshot {
    pub cpu: Vec<u32>,
    pub cpu_avg: u32,
    pub memory: MemoryStats,
    pub disks: Vec<DiskStats>,
    pub network: Vec<NetStats>,
    pub processes: Option<Vec<ProcessStats>>,
    pub os: Option<OsInfo>,
}

impl Snapshot {
    /// The shape every assembled snapshot satisfies: percentages on the
    /// scale, the average equal to the rounded mean of the per-core
    /// values, the ranking short and sorted, and the enumeration filter
    /// rules applied.
    pub open spec fn wf(self) -> bool {
        &&& cpu_seq_ok(self.cpu@)
        &&& self.cpu_avg == crate::stats::rounded_mean(self.cpu@)
        &&& percent_ok(self.cpu_avg)
        &&& match self.processes {
            Some(ps) => ps@.len() <= TOP_N && ranked(ps@) && proc_seq_ok(ps@),
            None => true,
        }
        &&& forall|i: int| 0 <= i < self.disks@.len() ==> disk_kept(#[trigger] self.disks@[i])
        &&& forall|i: int| 0 <= i < self.network@.len() ==> net_kept(#[trigger] self.network@[i])
    }
}

} // verus!

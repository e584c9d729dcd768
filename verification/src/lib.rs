//! A point-in-time and periodic system-metrics sampler.
//!
//! The library reads CPU, memory, disk, network, and (optionally)
//! per-process utilization from the host and assembles one immutable
//! snapshot per sampling tick.  Percentages are carried as integer
//! hundredths of a percent (`10000` is `100.00%`), so that rounding and
//! averaging are exact.

pub mod daemon;
pub mod enumerate;
pub mod handle;
pub mod identity;
pub mod model;
pub mod rank;
pub mod sampler;
pub mod stats;

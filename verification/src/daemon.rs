//! The daemon-mode tick policy.
//!
//! A daemon run emits one snapshot per fixed interval, forever.  The OS
//! identity is attached to exactly the first emitted tick and to no
//! later one; this ticker decides that, while the surrounding loop does
//! the sleeping and the emitting.

use vstd::prelude::*;

use crate::model::OsInfo;

verus! {

/// Whether the identity block accompanies the tick with this index:
/// only the very first one of a run.
pub open spec fn os_included_on_tick(tick: nat) -> bool {
    tick == 0
}

/// Counts the ticks a daemon run has taken, and grants the OS identity
/// on exactly the first one.
pub struct DaemonTicker {
    ticks: u64,
}

impl DaemonTicker {
    /// How many ticks were taken so far.
    pub closed spec fn ticks_taken(self) -> nat {
        self.ticks as nat
    }

    /// A ticker for a fresh daemon run: no tick taken yet.
    pub fn new() -> (t: Self)
        ensures
            t.ticks_taken() == 0,
    {
        DaemonTicker { ticks: 0 }
    }

    /// Runtime view of the tick count.
    pub fn ticks_done(&self) -> (n: u64)
        ensures
            n == self.ticks_taken(),
    {
        self.ticks
    }

    /// Take the next tick.  The identity block is granted if and only
    /// if no tick was taken before, so a run includes it exactly once.
    pub fn include_os(&mut self) -> (grant: bool)
        requires
            old(self).ticks_taken() < u64::MAX,
        ensures
            grant == os_included_on_tick(old(self).ticks_taken()),
            final(self).ticks_taken() == old(self).ticks_taken() + 1,
    {
        let grant = self.ticks == 0;
        self.ticks = self.ticks + 1;
        grant
    }
}

/// The identity block accompanies at most one tick of a run: whenever
/// one tick is granted it, every later tick is denied it.  Together
/// with `DaemonTicker::new` and `DaemonTicker::include_os` — a fresh
/// run grants the identity to its first tick — it is attached exactly
/// once per daemon run.
pub proof fn lemma_os_at_most_once(earlier: nat, later: nat)
    requires
        earlier < later,
    ensures
        os_included_on_tick(earlier) ==> !os_included_on_tick(later),
{
}

/// The identity value a tick attaches: the record when it was granted,
/// nothing otherwise.
pub fn select_os(grant: bool, os: OsInfo) -> (r: Option<OsInfo>)
    ensures
        grant ==> r == Some(os),
        !grant ==> r is None,
{
    if grant {
        Some(os)
    } else {
        None
    }
}

} // verus!

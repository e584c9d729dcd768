//! Stateless-per-call enumeration of mounted volumes and network
//! interfaces, with the filter rules that drop pseudo-devices and
//! unused interfaces.
//!
//! Enumeration builds fresh local state on every call and does not
//! touch the shared metrics handle, so it runs outside the handle's
//! critical section.

use vstd::prelude::*;

use crate::model::disk_kept;
use crate::model::net_kept;
use crate::model::DiskStats;
use crate::model::NetStats;

verus! {

broadcast use
    vstd::seq_lib::group_filter_ensures,
    vstd::prelude::Seq::lemma_filter_push,
;

/// The volumes that are kept: those with any capacity at all.
pub open spec fn kept_disks(s: Seq<DiskStats>) -> Seq<DiskStats> {
    s.filter(|d: DiskStats| disk_kept(d))
}

/// The interfaces that are kept: those with nonzero cumulative traffic.
pub open spec fn kept_nets(s: Seq<NetStats>) -> Seq<NetStats> {
    s.filter(|n: NetStats| net_kept(n))
}

/// Relies on sysinfo::Disks::new_with_refreshed_list and the per-disk
/// accessors name, available_space and total_space: one fresh
/// enumeration of the currently mounted volumes.
#[verifier::external_body]
fn enumerate_disks_raw() -> Vec<DiskStats> {
    let disks = sysinfo::Disks::new_with_refreshed_list();
    disks.list().iter().map(|d| DiskStats {
        name: d.name().to_string_lossy().into_owned(),
        available: d.available_space(),
        total: d.total_space(),
    }).collect()
}

/// Relies on sysinfo::Networks::new_with_refreshed_list and the
/// per-interface cumulative counters: one fresh enumeration of the
/// currently attached interfaces, in no guaranteed order.
#[verifier::external_body]
fn enumerate_networks_raw() -> Vec<NetStats> {
    let networks = sysinfo::Networks::new_with_refreshed_list();
    networks.iter().map(|(name, n)| NetStats {
        interface: name.clone(),
        rx_bytes: n.total_received(),
        tx_bytes: n.total_transmitted(),
        rx_packets: n.total_packets_received(),
        tx_packets: n.total_packets_transmitted(),
        rx_errors: n.total_errors_on_received(),
        tx_errors: n.total_errors_on_transmitted(),
    }).collect()
}

/// Keep exactly the volumes with nonzero total capacity, in enumeration
/// order.
pub fn filter_disks(all: Vec<DiskStats>) -> (r: Vec<DiskStats>)
    ensures
        r@ == kept_disks(all@),
        forall|i: int| 0 <= i < r@.len() ==> disk_kept(#[trigger] r@[i]),
{
    let ghost orig = all@;
    let ghost mut seen: Seq<DiskStats> = Seq::empty();
    let mut rest = all;
    let mut r: Vec<DiskStats> = Vec::new();
    proof {
        assert(seen + rest@ =~= orig);
        assert(kept_disks(seen) =~= Seq::empty());
    }
    while rest.len() > 0
        invariant
            seen + rest@ == orig,
            r@ == kept_disks(seen),
        decreases rest@.len(),
    {
        let d = rest.remove(0);
        let keep = d.total > 0;
        proof {
            assert(seen.push(d) + rest@ =~= orig);
            assert(kept_disks(seen.push(d)) == if disk_kept(d) {
                kept_disks(seen).push(d)
            } else {
                kept_disks(seen)
            });
            seen = seen.push(d);
        }
        if keep {
            r.push(d);
        }
    }
    proof {
        assert(seen =~= orig);
        assert forall|i: int| 0 <= i < r@.len() implies disk_kept(#[trigger] r@[i]) by {
            assert(r@[i] == kept_disks(orig)[i]);
        }
    }
    r
}

/// Keep exactly the interfaces that have ever received or transmitted
/// traffic, in enumeration order.
pub fn filter_networks(all: Vec<NetStats>) -> (r: Vec<NetStats>)
    ensures
        r@ == kept_nets(all@),
        forall|i: int| 0 <= i < r@.len() ==> net_kept(#[trigger] r@[i]),
{
    let ghost orig = all@;
    let ghost mut seen: Seq<NetStats> = Seq::empty();
    let mut rest = all;
    let mut r: Vec<NetStats> = Vec::new();
    proof {
        assert(seen + rest@ =~= orig);
        assert(kept_nets(seen) =~= Seq::empty());
    }
    while rest.len() > 0
        invariant
            seen + rest@ == orig,
            r@ == kept_nets(seen),
        decreases rest@.len(),
    {
        let n = rest.remove(0);
        let keep = n.rx_bytes > 0 || n.tx_bytes > 0;
        proof {
            assert(seen.push(n) + rest@ =~= orig);
            assert(kept_nets(seen.push(n)) == if net_kept(n) {
                kept_nets(seen).push(n)
            } else {
                kept_nets(seen)
            });
            seen = seen.push(n);
        }
        if keep {
            r.push(n);
        }
    }
    proof {
        assert(seen =~= orig);
        assert forall|i: int| 0 <= i < r@.len() implies net_kept(#[trigger] r@[i]) by {
            assert(r@[i] == kept_nets(orig)[i]);
        }
    }
    r
}

/// One fresh enumeration of mounted volumes, with the filter rule
/// applied: every entry has nonzero total capacity.
pub fn enumerate_disks() -> (r: Vec<DiskStats>)
    ensures
        forall|i: int| 0 <= i < r@.len() ==> disk_kept(#[trigger] r@[i]),
{
    filter_disks(enumerate_disks_raw())
}

/// One fresh enumeration of network interfaces, with the filter rule
/// applied: every entry has moved traffic in at least one direction.
pub fn enumerate_networks() -> (r: Vec<NetStats>)
    ensures
        forall|i: int| 0 <= i < r@.len() ==> net_kept(#[trigger] r@[i]),
{
    filter_networks(enumerate_networks_raw())
}

} // verus!

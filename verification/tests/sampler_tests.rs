use stats_agent::daemon::DaemonTicker;
use stats_agent::daemon::select_os;
use stats_agent::enumerate::enumerate_disks;
use stats_agent::enumerate::enumerate_networks;
use stats_agent::enumerate::filter_disks;
use stats_agent::enumerate::filter_networks;
use stats_agent::handle::MetricsHandle;
use stats_agent::identity::build_os_identity;
use stats_agent::identity::get_os_info;
use stats_agent::identity::or_unknown;
use stats_agent::model::DiskStats;
use stats_agent::model::MemoryStats;
use stats_agent::model::NetStats;
use stats_agent::model::OsInfo;
use stats_agent::model::ProcessStats;
use stats_agent::rank::top_processes;
use stats_agent::sampler::assemble_snapshot;
use stats_agent::stats::cpu_average;

fn proc_entry(pid: u32, cpu: u32) -> ProcessStats {
    ProcessStats {
        pid,
        name: format!("proc-{}", pid),
        exe: format!("/bin/proc-{}", pid),
        memory: 1024 * pid as u64,
        cpu,
    }
}

fn memory_fixture() -> MemoryStats {
    MemoryStats { total: 8192, used: 4096, swap_total: 2048, swap_used: 512 }
}

fn os_fixture() -> OsInfo {
    OsInfo {
        name: "TestOS".to_string(),
        kernel: "1.2.3".to_string(),
        version: "42".to_string(),
        arch: "riscv64".to_string(),
    }
}

#[test]
fn average_of_empty_is_zero() {
    let cpu: Vec<u32> = vec![];
    assert_eq!(cpu_average(&cpu), 0);
}

#[test]
fn average_of_single_is_itself() {
    assert_eq!(cpu_average(&vec![4250]), 4250);
}

#[test]
fn average_exact() {
    // 10.00%, 20.00%, 30.00% -> 20.00%
    assert_eq!(cpu_average(&vec![1000, 2000, 3000]), 2000);
}

#[test]
fn average_rounds_half_up() {
    // mean of 0.01% and 0.02% is 0.015%, which rounds to 0.02%
    assert_eq!(cpu_average(&vec![1, 2]), 2);
}

#[test]
fn average_rounds_down_below_half() {
    // mean of 1, 1, 2 is 4/3 = 1.33.., which rounds to 1
    assert_eq!(cpu_average(&vec![1, 1, 2]), 1);
}

#[test]
fn average_at_full_scale() {
    assert_eq!(cpu_average(&vec![10000, 10000]), 10000);
}

#[test]
fn top_processes_sorts_descending() {
    let procs = vec![proc_entry(1, 100), proc_entry(2, 900), proc_entry(3, 500)];
    let top = top_processes(procs);
    let cpus: Vec<u32> = top.iter().map(|p| p.cpu).collect();
    assert_eq!(cpus, vec![900, 500, 100]);
}

#[test]
fn top_processes_keeps_ties_in_enumeration_order() {
    let procs = vec![
        proc_entry(10, 300),
        proc_entry(11, 700),
        proc_entry(12, 300),
        proc_entry(13, 300),
    ];
    let top = top_processes(procs);
    let pids: Vec<u32> = top.iter().map(|p| p.pid).collect();
    assert_eq!(pids, vec![11, 10, 12, 13]);
}

#[test]
fn top_processes_truncates_to_ten() {
    let mut procs = Vec::new();
    for pid in 0..12u32 {
        procs.push(proc_entry(pid, 100 * pid));
    }
    let top = top_processes(procs);
    assert_eq!(top.len(), 10);
    let cpus: Vec<u32> = top.iter().map(|p| p.cpu).collect();
    assert_eq!(cpus, vec![1100, 1000, 900, 800, 700, 600, 500, 400, 300, 200]);
}

#[test]
fn filter_disks_drops_zero_total() {
    let disks = vec![
        DiskStats { name: "a".to_string(), available: 1, total: 10 },
        DiskStats { name: "pseudo".to_string(), available: 0, total: 0 },
        DiskStats { name: "b".to_string(), available: 2, total: 20 },
    ];
    let kept = filter_disks(disks);
    let names: Vec<String> = kept.iter().map(|d| d.name.clone()).collect();
    assert_eq!(names, vec!["a".to_string(), "b".to_string()]);
}

#[test]
fn filter_networks_drops_idle_interfaces() {
    let nets = vec![
        NetStats {
            interface: "lo".to_string(),
            rx_bytes: 0,
            tx_bytes: 0,
            rx_packets: 0,
            tx_packets: 0,
            rx_errors: 0,
            tx_errors: 0,
        },
        NetStats {
            interface: "eth0".to_string(),
            rx_bytes: 5,
            tx_bytes: 0,
            rx_packets: 1,
            tx_packets: 0,
            rx_errors: 0,
            tx_errors: 0,
        },
        NetStats {
            interface: "wlan0".to_string(),
            rx_bytes: 0,
            tx_bytes: 7,
            rx_packets: 0,
            tx_packets: 2,
            rx_errors: 0,
            tx_errors: 0,
        },
    ];
    let kept = filter_networks(nets);
    let names: Vec<String> = kept.iter().map(|n| n.interface.clone()).collect();
    assert_eq!(names, vec!["eth0".to_string(), "wlan0".to_string()]);
}

#[test]
fn snapshot_summary_shape() {
    // single-shot summary: no process detail requested, identity attached
    let snapshot = assemble_snapshot(vec![1000, 3000], memory_fixture(), None, Some(os_fixture()));
    assert_eq!(snapshot.cpu, vec![1000, 3000]);
    assert_eq!(snapshot.cpu_avg, 2000);
    assert_eq!(snapshot.memory.total, 8192);
    assert_eq!(snapshot.memory.swap_used, 512);
    assert!(snapshot.processes.is_none());
    let os = snapshot.os.expect("single-shot record carries the identity");
    assert_eq!(os.name, "TestOS");
    for d in snapshot.disks.iter() {
        assert!(d.total > 0);
    }
    for n in snapshot.network.iter() {
        assert!(n.rx_bytes > 0 || n.tx_bytes > 0);
    }
}

#[test]
fn snapshot_with_processes_is_ranked_and_short() {
    let mut procs = Vec::new();
    for pid in 0..25u32 {
        procs.push(proc_entry(pid, (pid * 37) % 401));
    }
    let snapshot = assemble_snapshot(vec![500], memory_fixture(), Some(procs), None);
    assert!(snapshot.os.is_none());
    let ranked = snapshot.processes.expect("process detail was requested");
    assert_eq!(ranked.len(), 10);
    for w in ranked.windows(2) {
        assert!(w[0].cpu >= w[1].cpu);
    }
}

#[test]
fn snapshot_with_empty_process_list() {
    let snapshot = assemble_snapshot(vec![], memory_fixture(), Some(vec![]), None);
    let ranked = snapshot.processes.expect("process detail was requested");
    assert!(ranked.is_empty());
    assert_eq!(snapshot.cpu_avg, 0);
}

#[test]
fn daemon_grants_os_on_first_tick_only() {
    let mut ticker = DaemonTicker::new();
    let grants: Vec<bool> = (0..3).map(|_| ticker.include_os()).collect();
    assert_eq!(grants, vec![true, false, false]);
}

#[test]
fn select_os_follows_grant() {
    assert!(select_os(false, os_fixture()).is_none());
    let chosen = select_os(true, os_fixture()).expect("granted");
    assert_eq!(chosen.kernel, "1.2.3");
}

#[test]
fn handle_starts_cold_and_warms_up() {
    let mut handle = MetricsHandle::new();
    assert!(!handle.check_warmed());
    handle.warm_up_refresh();
    assert!(handle.check_warmed());
    handle.refresh_for_tick(false);
    assert!(handle.check_warmed());
}

#[test]
fn handle_reads_memory_after_refresh() {
    let mut handle = MetricsHandle::new();
    handle.warm_up_refresh();
    handle.refresh_for_tick(false);
    let memory = handle.read_memory();
    // on any real host some RAM exists and usage never exceeds the total
    assert!(memory.total > 0);
    assert!(memory.used <= memory.total);
}

#[test]
fn enumeration_shape_is_stable() {
    // two quick enumerations on an unchanged system agree on the names
    let first: Vec<String> = {
        let mut v: Vec<String> = enumerate_disks().iter().map(|d| d.name.clone()).collect();
        v.sort();
        v
    };
    let second: Vec<String> = {
        let mut v: Vec<String> = enumerate_disks().iter().map(|d| d.name.clone()).collect();
        v.sort();
        v
    };
    assert_eq!(first, second);

    let first_nets: Vec<String> = {
        let mut v: Vec<String> = enumerate_networks().iter().map(|n| n.interface.clone()).collect();
        v.sort();
        v
    };
    let second_nets: Vec<String> = {
        let mut v: Vec<String> = enumerate_networks().iter().map(|n| n.interface.clone()).collect();
        v.sort();
        v
    };
    assert_eq!(first_nets, second_nets);
}

#[test]
fn or_unknown_fallback() {
    assert_eq!(or_unknown(Some("Linux".to_string())), "Linux");
    assert_eq!(or_unknown(None), "Unknown");
}

#[test]
fn os_identity_fallback_rules() {
    let os = build_os_identity(
        Some("Linux".to_string()),
        None,
        Some("6.1".to_string()),
        None,
        "x86_64".to_string(),
    );
    assert_eq!(os.name, "Linux");
    assert_eq!(os.kernel, "Unknown");
    assert_eq!(os.version, "6.1");
    assert_eq!(os.arch, "x86_64");
}

#[test]
fn os_identity_prefers_reported_arch() {
    let os = build_os_identity(None, None, None, Some("aarch64".to_string()), "x86_64".to_string());
    assert_eq!(os.arch, "aarch64");
}

#[test]
fn get_os_info_fills_every_field() {
    let os = get_os_info("testarch".to_string());
    assert!(!os.name.is_empty());
    assert!(!os.kernel.is_empty());
    assert!(!os.version.is_empty());
    assert!(!os.arch.is_empty());
}

use node_agent::disk::{disk_io, disk_io_rates, disk_space, disk_space_kb, DiskSpace, ProcessIo};
use node_agent::memory::{collect_memory, memory_metrics};
use node_agent::network::{collect_network, network_metrics, InterfaceCounters};
use node_agent::process::{collect_processes, is_running, process_metrics, ProcessState};
use node_agent::rate::kb_per_sec_exec;
use node_agent::sum::checked_sum;
use sysinfo::{Disks, Networks, System};

#[test]
fn memory_in_kib() {
    let m = memory_metrics(2048, 1023);
    assert_eq!((m.ram_used_kb, m.swap_used_kb), (2, 0));
    let m = memory_metrics(u64::MAX, 1024 * 1024);
    assert_eq!((m.ram_used_kb, m.swap_used_kb), (u64::MAX / 1024, 1024));
}

#[test]
fn collect_memory_reads_the_snapshot() {
    let mut system = System::new();
    system.refresh_memory();
    let m = collect_memory(&system);
    assert_eq!(m.ram_used_kb, system.used_memory() / 1024);
    assert_eq!(m.swap_used_kb, system.used_swap() / 1024);
}

#[test]
fn processes_counted() {
    let m = process_metrics(&[
        ProcessState::Run,
        ProcessState::Sleep,
        ProcessState::Run,
        ProcessState::Zombie,
        ProcessState::Unknown(7),
    ]);
    assert_eq!((m.active_processes, m.total_processes), (2, 5));
    let m = process_metrics(&[]);
    assert_eq!((m.active_processes, m.total_processes), (0, 0));
}

#[test]
fn only_run_is_running() {
    assert!(is_running(&ProcessState::Run));
    for s in [
        ProcessState::Idle, ProcessState::Sleep, ProcessState::Stop, ProcessState::Zombie,
        ProcessState::Tracing, ProcessState::Dead, ProcessState::Wakekill, ProcessState::Waking,
        ProcessState::Parked, ProcessState::LockBlocked, ProcessState::UninterruptibleDiskSleep,
        ProcessState::Unknown(0),
    ] {
        assert!(!is_running(&s));
    }
}

#[test]
fn collect_processes_reads_the_snapshot() {
    let system = System::new_all();
    let m = collect_processes(&system);
    assert_eq!(m.total_processes, system.processes().len());
    let running = system
        .processes()
        .values()
        .filter(|p| matches!(p.status(), sysinfo::ProcessStatus::Run))
        .count();
    assert_eq!(m.active_processes, running);
    assert!(m.active_processes <= m.total_processes);
}

#[test]
fn rates_per_second() {
    assert_eq!(kb_per_sec_exec(10 * 1024, 2), 5);
    assert_eq!(kb_per_sec_exec(10 * 1024, 0), 10);
    assert_eq!(kb_per_sec_exec(10 * 1024, 1), 10);
    assert_eq!(kb_per_sec_exec(1023, 1), 0);
    assert_eq!(kb_per_sec_exec(7 * 1024, 2), 3);
}

#[test]
fn sums_detect_overflow() {
    assert_eq!(checked_sum(&[1, 2, 3]), Some(6));
    assert_eq!(checked_sum(&[]), Some(0));
    assert_eq!(checked_sum(&[u64::MAX, 1]), None);
    assert_eq!(checked_sum(&[u64::MAX, 0]), Some(u64::MAX));
}

fn iface(total_received: u64, total_transmitted: u64, received: u64, transmitted: u64) -> InterfaceCounters {
    InterfaceCounters { total_received, total_transmitted, received, transmitted }
}

#[test]
fn network_sums_all_interfaces() {
    let m = network_metrics(&[iface(4096, 2048, 10240, 3072), iface(1024, 1023, 10240, 0)], 4)
        .unwrap();
    assert_eq!(m.network_rx_kb, 5);
    assert_eq!(m.network_tx_kb, 2);
    assert_eq!(m.network_rx_kb_per_sec, 5);
    assert_eq!(m.network_tx_kb_per_sec, 0);
    let m = network_metrics(&[iface(0, 0, 2048, 4096)], 0).unwrap();
    assert_eq!((m.network_rx_kb_per_sec, m.network_tx_kb_per_sec), (2, 4));
    let m = network_metrics(&[], 5).unwrap();
    assert_eq!(m.network_rx_kb, 0);
}

#[test]
fn network_overflow_is_refused() {
    assert!(network_metrics(&[iface(u64::MAX, 0, 0, 0), iface(1, 0, 0, 0)], 1).is_none());
    assert!(network_metrics(&[iface(0, 0, 0, u64::MAX), iface(0, 0, 0, 1)], 1).is_none());
}

#[test]
fn collect_network_reads_the_snapshot() {
    let networks = Networks::new_with_refreshed_list();
    let m = collect_network(&networks, 5).unwrap();
    let total: u64 = networks.iter().map(|(_, d)| d.total_received()).sum();
    assert_eq!(m.network_rx_kb, total / 1024);
    let total: u64 = networks.iter().map(|(_, d)| d.total_transmitted()).sum();
    assert_eq!(m.network_tx_kb, total / 1024);
}

#[test]
fn disk_space_rounds_each_disk() {
    let u = disk_space_kb(&[
        DiskSpace { total_bytes: 4096 + 1000, available_bytes: 1024 },
        DiskSpace { total_bytes: 2048, available_bytes: 2048 },
    ])
    .unwrap();
    assert_eq!((u.used_kb, u.total_kb), (3, 6));
    let u = disk_space_kb(&[]).unwrap();
    assert_eq!((u.used_kb, u.total_kb), (0, 0));
}

#[test]
fn disk_space_refuses_inconsistent_disks() {
    assert!(disk_space_kb(&[DiskSpace { total_bytes: 10, available_bytes: 11 }]).is_none());
}

#[test]
fn collect_disk_space_reads_the_snapshot() {
    let disks = Disks::new_with_refreshed_list();
    let u = disk_space(&disks).unwrap();
    let total: u64 = disks.list().iter().map(|d| d.total_space() / 1024).sum();
    assert_eq!(u.total_kb, total);
    assert!(u.used_kb <= u.total_kb);
}

#[test]
fn disk_io_over_all_processes() {
    let r = disk_io_rates(
        &[ProcessIo { read_bytes: 4096, written_bytes: 1024 }, ProcessIo { read_bytes: 4096, written_bytes: 0 }],
        2,
    );
    assert_eq!(r, Some((4, 0)));
    assert_eq!(disk_io_rates(&[ProcessIo { read_bytes: u64::MAX, written_bytes: 0 }, ProcessIo { read_bytes: 1, written_bytes: 0 }], 1), None);
    assert_eq!(disk_io_rates(&[], 0), Some((0, 0)));
}

#[test]
fn collect_disk_io_reads_the_snapshot() {
    let system = System::new_all();
    let (read, written) = disk_io(&system, 1).unwrap();
    let r: u64 = system.processes().values().map(|p| p.disk_usage().read_bytes).sum();
    let w: u64 = system.processes().values().map(|p| p.disk_usage().written_bytes).sum();
    assert_eq!((read, written), (r / 1024, w / 1024));
}

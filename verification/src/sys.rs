//! The parts of `sysinfo` that the metrics read.
//!
//! A `sysinfo` value is a snapshot of the machine taken by its last refresh. What its
//! getters return depends on that machine, so the wrappers below promise nothing of the
//! numbers; the functions that use them state what holds whatever came back.
use vstd::prelude::*;
use sysinfo::{Cpu, Disk, Disks, NetworkData, Networks, Process, ProcessStatus, System};
use crate::process::ProcessState;

verus! {

/// `sysinfo::System`, a snapshot of the machine; opaque here, only carried to the wrappers below.
#[verifier::external_type_specification]
#[verifier::external_body]
pub struct ExSystem(System);

/// `sysinfo::Process`, one process of a snapshot; opaque here, only carried to the wrappers below.
#[verifier::external_type_specification]
#[verifier::external_body]
pub struct ExProcess(Process);

/// `sysinfo::Cpu`, one logical CPU of a snapshot; opaque here, only carried to the wrappers below.
#[verifier::external_type_specification]
#[verifier::external_body]
pub struct ExCpu(Cpu);

/// `sysinfo::Disks`, the disks of a snapshot; opaque here, only carried to the wrappers below.
#[verifier::external_type_specification]
#[verifier::external_body]
pub struct ExDisks(Disks);

/// `sysinfo::Disk`, one disk; opaque here, only carried to the wrappers below.
#[verifier::external_type_specification]
#[verifier::external_body]
pub struct ExDisk(Disk);

/// `sysinfo::Networks`, the network interfaces of a snapshot; opaque here, only carried to the wrappers below.
#[verifier::external_type_specification]
#[verifier::external_body]
pub struct ExNetworks(Networks);

/// `sysinfo::NetworkData`, the counters of one network interface; opaque here, only carried to the wrappers below.
#[verifier::external_type_specification]
#[verifier::external_body]
pub struct ExNetworkData(NetworkData);

/// `System::used_memory`: the RAM in use, in bytes, as of the last refresh.
/// No `ensures`: what it returns is the machine's, as of the snapshot.
#[verifier::external_body]
pub(crate) fn used_memory(system: &System) -> u64 {
    system.used_memory()
}

/// `System::used_swap`: the swap in use, in bytes, as of the last refresh.
/// No `ensures`: what it returns is the machine's, as of the snapshot.
#[verifier::external_body]
pub(crate) fn used_swap(system: &System) -> u64 {
    system.used_swap()
}

/// `System::total_memory`: the size of the RAM, in bytes.
/// No `ensures`: what it returns is the machine's, as of the snapshot.
#[verifier::external_body]
pub(crate) fn total_memory(system: &System) -> u64 {
    system.total_memory()
}

/// `System::total_swap`: the size of the swap, in bytes.
/// No `ensures`: what it returns is the machine's, as of the snapshot.
#[verifier::external_body]
pub(crate) fn total_swap(system: &System) -> u64 {
    system.total_swap()
}

/// `System::processes`: the processes of the snapshot, one reference each, in the order
/// in which their map is walked.
/// No `ensures`: what it returns is the machine's, as of the snapshot.
#[verifier::external_body]
pub(crate) fn processes(system: &System) -> Vec<&Process> {
    system.processes().values().collect()
}

/// `Process::status`, each of its variants mapped to the variant of the same name.
/// No `ensures`: what it returns is the machine's, as of the snapshot.
#[verifier::external_body]
pub(crate) fn process_status(process: &Process) -> ProcessState {
    match process.status() {
        ProcessStatus::Idle => ProcessState::Idle,
        ProcessStatus::Run => ProcessState::Run,
        ProcessStatus::Sleep => ProcessState::Sleep,
        ProcessStatus::Stop => ProcessState::Stop,
        ProcessStatus::Zombie => ProcessState::Zombie,
        ProcessStatus::Tracing => ProcessState::Tracing,
        ProcessStatus::Dead => ProcessState::Dead,
        ProcessStatus::Wakekill => ProcessState::Wakekill,
        ProcessStatus::Waking => ProcessState::Waking,
        ProcessStatus::Parked => ProcessState::Parked,
        ProcessStatus::LockBlocked => ProcessState::LockBlocked,
        ProcessStatus::UninterruptibleDiskSleep => ProcessState::UninterruptibleDiskSleep,
        ProcessStatus::Unknown(n) => ProcessState::Unknown(n),
    }
}

/// `Process::disk_usage`: the bytes read and the bytes written since the last refresh.
/// No `ensures`: what it returns is the machine's, as of the snapshot.
#[verifier::external_body]
pub(crate) fn process_disk_usage(process: &Process) -> (u64, u64) {
    let usage = process.disk_usage();
    (usage.read_bytes, usage.written_bytes)
}

/// `System::cpus`: the logical CPUs of the snapshot.
/// No `ensures`: what it returns is the machine's, as of the snapshot.
#[verifier::external_body]
pub(crate) fn cpus(system: &System) -> &[Cpu] {
    system.cpus()
}

/// `Cpu::frequency`: the frequency of the CPU, in MHz.
/// No `ensures`: what it returns is the machine's, as of the snapshot.
#[verifier::external_body]
pub(crate) fn cpu_frequency(cpu: &Cpu) -> u64 {
    cpu.frequency()
}

/// `Cpu::vendor_id`, copied into a `String`.
/// No `ensures`: what it returns is the machine's, as of the snapshot.
#[verifier::external_body]
pub(crate) fn cpu_vendor_id(cpu: &Cpu) -> String {
    cpu.vendor_id().to_string()
}

/// `Cpu::brand`, copied into a `String`.
/// No `ensures`: what it returns is the machine's, as of the snapshot.
#[verifier::external_body]
pub(crate) fn cpu_brand(cpu: &Cpu) -> String {
    cpu.brand().to_string()
}

/// `Disks::list`: the disks of the snapshot.
/// No `ensures`: what it returns is the machine's, as of the snapshot.
#[verifier::external_body]
pub(crate) fn disk_list(disks: &Disks) -> &[Disk] {
    disks.list()
}

/// `Disk::total_space`: the size of the disk, in bytes.
/// No `ensures`: what it returns is the machine's, as of the snapshot.
#[verifier::external_body]
pub(crate) fn disk_total_space(disk: &Disk) -> u64 {
    disk.total_space()
}

/// `Disk::available_space`: the space left on the disk, in bytes.
/// No `ensures`: what it returns is the machine's, as of the snapshot.
#[verifier::external_body]
pub(crate) fn disk_available_space(disk: &Disk) -> u64 {
    disk.available_space()
}

/// `Networks::list`: the data of each network interface, in the order in which their map
/// is walked.
/// No `ensures`: what it returns is the machine's, as of the snapshot.
#[verifier::external_body]
pub(crate) fn network_list(networks: &Networks) -> Vec<&NetworkData> {
    networks.list().values().collect()
}

/// `NetworkData::total_received`: the bytes received since the interface came up.
/// No `ensures`: what it returns is the machine's, as of the snapshot.
#[verifier::external_body]
pub(crate) fn network_total_received(data: &NetworkData) -> u64 {
    data.total_received()
}

/// `NetworkData::total_transmitted`: the bytes sent since the interface came up.
/// No `ensures`: what it returns is the machine's, as of the snapshot.
#[verifier::external_body]
pub(crate) fn network_total_transmitted(data: &NetworkData) -> u64 {
    data.total_transmitted()
}

/// `NetworkData::received`: the bytes received since the last refresh.
/// No `ensures`: what it returns is the machine's, as of the snapshot.
#[verifier::external_body]
pub(crate) fn network_received(data: &NetworkData) -> u64 {
    data.received()
}

/// `NetworkData::transmitted`: the bytes sent since the last refresh.
/// No `ensures`: what it returns is the machine's, as of the snapshot.
#[verifier::external_body]
pub(crate) fn network_transmitted(data: &NetworkData) -> u64 {
    data.transmitted()
}

} // verus!

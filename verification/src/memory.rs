use vstd::prelude::*;
use sysinfo::System;
use crate::sys;

verus! {

/// RAM and swap in use, in KiB.
pub struct MemoryMetrics {
    pub ram_used_kb: u64,
    pub swap_used_kb: u64,
}

/// The memory figures for the given byte counts in use.
pub open spec fn memory_figures(used_memory_bytes: u64, used_swap_bytes: u64) -> MemoryMetrics {
    MemoryMetrics { ram_used_kb: used_memory_bytes / 1024, swap_used_kb: used_swap_bytes / 1024 }
}

/// Turns the RAM and swap in use, in bytes, into KiB (rounded down).
pub fn memory_metrics(used_memory_bytes: u64, used_swap_bytes: u64) -> (m: MemoryMetrics)
    ensures
        m == memory_figures(used_memory_bytes, used_swap_bytes),
{
    MemoryMetrics { ram_used_kb: used_memory_bytes / 1024, swap_used_kb: used_swap_bytes / 1024 }
}

/// The memory in use according to the snapshot `system`.
pub fn collect_memory(system: &System) -> (m: MemoryMetrics)
    ensures
        exists|ram: u64, swap: u64| m == #[trigger] memory_figures(ram, swap),
{
    let ram = sys::used_memory(system);
    let swap = sys::used_swap(system);
    let m = memory_metrics(ram, swap);
    assert(m == memory_figures(ram, swap));
    m
}

} // verus!

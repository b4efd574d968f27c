use vstd::prelude::*;
use sysinfo::{Disks, System};
use crate::rate::{kb_per_sec, kb_per_sec_exec};
use crate::sum::{checked_sum, lemma_sum_le_pointwise, lemma_sum_nonneg, sum};
use crate::sys;

verus! {

/// The size of one disk and the space left on it, in bytes.
pub struct DiskSpace {
    pub total_bytes: u64,
    pub available_bytes: u64,
}

/// Space in use and total space over all disks, in KiB.
pub struct DiskSpaceKb {
    pub used_kb: u64,
    pub total_kb: u64,
}

/// The bytes one process read and wrote over the last interval.
pub struct ProcessIo {
    pub read_bytes: u64,
    pub written_bytes: u64,
}

/// The size of each disk in whole KiB.
pub open spec fn total_kb_column(s: Seq<DiskSpace>) -> Seq<u64> {
    s.map_values(|d: DiskSpace| d.total_bytes / 1024)
}

/// The space in use on each disk in whole KiB.
pub open spec fn used_kb_column(s: Seq<DiskSpace>) -> Seq<u64> {
    s.map_values(|d: DiskSpace| ((d.total_bytes - d.available_bytes) as u64) / 1024)
}

/// Whether no disk reports more space left than it has.
pub open spec fn space_consistent(s: Seq<DiskSpace>) -> bool {
    forall|i: int| 0 <= i < s.len() ==> s[i].available_bytes <= #[trigger] s[i].total_bytes
}

/// The disk space figures: each disk is rounded down to whole KiB before it is added; nothing
/// where a disk has more space left than its size or the sum does not fit in a `u64`.
pub open spec fn disk_space_figures(s: Seq<DiskSpace>) -> Option<DiskSpaceKb> {
    if space_consistent(s) && sum(total_kb_column(s)) <= u64::MAX {
        Some(
            DiskSpaceKb {
                used_kb: sum(used_kb_column(s)) as u64,
                total_kb: sum(total_kb_column(s)) as u64,
            },
        )
    } else {
        None
    }
}

/// On every disk the space in use is at most its size, so over all disks too.
pub proof fn lemma_used_at_most_total(s: Seq<DiskSpace>)
    requires
        space_consistent(s),
    ensures
        0 <= sum(used_kb_column(s)) <= sum(total_kb_column(s)),
{
    assert forall|i: int| 0 <= i < s.len() implies used_kb_column(s)[i] <= total_kb_column(s)[i] by {
        assert(s[i].available_bytes <= s[i].total_bytes);
    }
    lemma_sum_le_pointwise(used_kb_column(s), total_kb_column(s));
    lemma_sum_nonneg(used_kb_column(s));
}

/// Adds up the space in use and the size of all disks, in KiB; `None` where a disk reports
/// more space left than its size, or the sizes overflow.
pub fn disk_space_kb(disks: &[DiskSpace]) -> (r: Option<DiskSpaceKb>)
    ensures
        r == disk_space_figures(disks@),
        r matches Some(u) ==> u.used_kb <= u.total_kb,
{
    let mut total: Vec<u64> = Vec::new();
    let mut used: Vec<u64> = Vec::new();
    let mut i: usize = 0;
    while i < disks.len()
        invariant
            i <= disks.len(),
            space_consistent(disks@.take(i as int)),
            total@ =~= total_kb_column(disks@.take(i as int)),
            used@ =~= used_kb_column(disks@.take(i as int)),
        decreases disks.len() - i,
    {
        let d = &disks[i];
        if d.available_bytes > d.total_bytes {
            assert(!space_consistent(disks@)) by {
                assert(disks@[i as int].available_bytes > disks@[i as int].total_bytes);
            }
            return None;
        }
        total.push(d.total_bytes / 1024);
        used.push((d.total_bytes - d.available_bytes) / 1024);
        assert(disks@.take(i as int + 1) =~= disks@.take(i as int).push(disks@[i as int]));
        i = i + 1;
    }
    assert(disks@.take(disks.len() as int) =~= disks@);
    assert(total@ == total_kb_column(disks@));
    assert(used@ == used_kb_column(disks@));
    proof {
        lemma_used_at_most_total(disks@);
    }
    match checked_sum(total.as_slice()) {
        Some(total_kb) => {
            let used_kb = checked_sum(used.as_slice());
            match used_kb {
                Some(used_kb) => Some(DiskSpaceKb { used_kb, total_kb }),
                None => None,
            }
        },
        None => None,
    }
}

/// The disk space of the snapshot `disks`, in KiB; `None` where a disk reports more space
/// left than its size, or the sizes overflow.
pub fn disk_space(disks: &Disks) -> (r: Option<DiskSpaceKb>)
    ensures
        exists|s: Seq<DiskSpace>| r == #[trigger] disk_space_figures(s),
        r matches Some(u) ==> u.used_kb <= u.total_kb,
{
    let list = sys::disk_list(disks);
    let mut spaces: Vec<DiskSpace> = Vec::new();
    let mut i: usize = 0;
    while i < list.len()
        invariant
            i <= list.len(),
        decreases list.len() - i,
    {
        spaces.push(
            DiskSpace {
                total_bytes: sys::disk_total_space(&list[i]),
                available_bytes: sys::disk_available_space(&list[i]),
            },
        );
        i = i + 1;
    }
    let r = disk_space_kb(spaces.as_slice());
    assert(r == disk_space_figures(spaces@));
    r
}

pub open spec fn read_column(s: Seq<ProcessIo>) -> Seq<u64> {
    s.map_values(|p: ProcessIo| p.read_bytes)
}

pub open spec fn written_column(s: Seq<ProcessIo>) -> Seq<u64> {
    s.map_values(|p: ProcessIo| p.written_bytes)
}

/// The disk traffic of all processes over `interval_secs` seconds, in KiB per second read
/// and written; nothing where a sum does not fit in a `u64`.
pub open spec fn disk_io_figures(s: Seq<ProcessIo>, interval_secs: u64) -> Option<(u64, u64)> {
    let read = sum(read_column(s));
    let written = sum(written_column(s));
    if read <= u64::MAX && written <= u64::MAX {
        Some((kb_per_sec(read, interval_secs) as u64, kb_per_sec(written, interval_secs) as u64))
    } else {
        None
    }
}

/// Adds up the bytes that all processes read and wrote and turns them into KiB per second;
/// `None` where a sum overflows.
pub fn disk_io_rates(processes: &[ProcessIo], interval_secs: u64) -> (r: Option<(u64, u64)>)
    ensures
        r == disk_io_figures(processes@, interval_secs),
{
    let mut read: Vec<u64> = Vec::new();
    let mut written: Vec<u64> = Vec::new();
    let mut i: usize = 0;
    while i < processes.len()
        invariant
            i <= processes.len(),
            read@ =~= read_column(processes@.take(i as int)),
            written@ =~= written_column(processes@.take(i as int)),
        decreases processes.len() - i,
    {
        read.push(processes[i].read_bytes);
        written.push(processes[i].written_bytes);
        assert(processes@.take(i as int + 1) =~= processes@.take(i as int).push(processes@[i as int]));
        i = i + 1;
    }
    assert(processes@.take(processes.len() as int) =~= processes@);
    assert(read@ == read_column(processes@));
    assert(written@ == written_column(processes@));
    proof {
        lemma_sum_nonneg(read@);
        lemma_sum_nonneg(written@);
    }
    match (checked_sum(read.as_slice()), checked_sum(written.as_slice())) {
        (Some(r), Some(w)) => Some((kb_per_sec_exec(r, interval_secs), kb_per_sec_exec(w, interval_secs))),
        _ => None,
    }
}

/// The disk traffic of all processes of the snapshot `system` over `interval_secs` seconds,
/// in KiB per second read and written; `None` where a sum overflows.
pub fn disk_io(system: &System, interval_secs: u64) -> (r: Option<(u64, u64)>)
    ensures
        exists|s: Seq<ProcessIo>| r == #[trigger] disk_io_figures(s, interval_secs),
{
    let list = sys::processes(system);
    let mut samples: Vec<ProcessIo> = Vec::new();
    let mut i: usize = 0;
    while i < list.len()
        invariant
            i <= list.len(),
        decreases list.len() - i,
    {
        let (read_bytes, written_bytes) = sys::process_disk_usage(list[i]);
        samples.push(ProcessIo { read_bytes, written_bytes });
        i = i + 1;
    }
    let r = disk_io_rates(samples.as_slice(), interval_secs);
    assert(r == disk_io_figures(samples@, interval_secs));
    r
}

} // verus!

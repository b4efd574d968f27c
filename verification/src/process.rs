use vstd::prelude::*;
use sysinfo::System;
use crate::sys;

verus! {

/// How many processes there are, and how many of them are running.
pub struct ProcessMetrics {
    pub active_processes: usize,
    pub total_processes: usize,
}

/// The status of a process, one variant for each status that `sysinfo` reports.
pub enum ProcessState {
    Idle,
    Run,
    Sleep,
    Stop,
    Zombie,
    Tracing,
    Dead,
    Wakekill,
    Waking,
    Parked,
    LockBlocked,
    UninterruptibleDiskSleep,
    /// A status that `sysinfo` does not know, with its raw value.
    Unknown(u32),
}

/// Whether a process with this status counts as active: only a running one does.
pub fn is_running(s: &ProcessState) -> (b: bool)
    ensures
        b == (*s is Run),
{
    match s {
        ProcessState::Run => true,
        _ => false,
    }
}

/// How many of the statuses are `Run`.
pub open spec fn count_running(states: Seq<ProcessState>) -> nat
    decreases states.len(),
{
    if states.len() == 0 {
        0
    } else {
        count_running(states.drop_last()) + if states.last() is Run {
            1nat
        } else {
            0nat
        }
    }
}

/// No more processes run than there are.
pub proof fn lemma_running_at_most_total(states: Seq<ProcessState>)
    ensures
        count_running(states) <= states.len(),
    decreases states.len(),
{
    if states.len() > 0 {
        lemma_running_at_most_total(states.drop_last());
    }
}

/// The process figures for the statuses of all processes: every process counts, and
/// those that run count as active.
pub fn process_metrics(states: &[ProcessState]) -> (m: ProcessMetrics)
    ensures
        m.total_processes == states@.len(),
        m.active_processes == count_running(states@),
        m.active_processes <= m.total_processes,
{
    let mut active: usize = 0;
    let mut i: usize = 0;
    while i < states.len()
        invariant
            i <= states.len(),
            active == count_running(states@.take(i as int)),
        decreases states.len() - i,
    {
        assert(states@.take(i as int + 1).drop_last() =~= states@.take(i as int));
        proof {
            lemma_running_at_most_total(states@.take(i as int + 1));
        }
        if is_running(&states[i]) {
            active = active + 1;
        }
        i = i + 1;
    }
    assert(states@.take(states.len() as int) =~= states@);
    proof {
        lemma_running_at_most_total(states@);
    }
    ProcessMetrics { active_processes: active, total_processes: states.len() }
}

/// The process figures of the snapshot `system`: every process counts, and those whose
/// status is `Run` count as active.
pub fn collect_processes(system: &System) -> (m: ProcessMetrics)
    ensures
        m.active_processes <= m.total_processes,
        exists|states: Seq<ProcessState>|
            states.len() == m.total_processes && m.active_processes == #[trigger] count_running(
                states,
            ),
{
    let list = sys::processes(system);
    let mut states: Vec<ProcessState> = Vec::new();
    let mut i: usize = 0;
    while i < list.len()
        invariant
            i <= list.len(),
            states@.len() == i,
        decreases list.len() - i,
    {
        states.push(sys::process_status(list[i]));
        i = i + 1;
    }
    let m = process_metrics(states.as_slice());
    assert(m.active_processes == count_running(states@));
    m
}

} // verus!

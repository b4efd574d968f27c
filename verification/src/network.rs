use vstd::prelude::*;
use sysinfo::Networks;
use crate::rate::{kb_per_sec, kb_per_sec_exec};
use crate::sum::{checked_sum, sum};
use crate::sys;

verus! {

/// Traffic over all network interfaces, in KiB: since the interfaces came up, and per
/// second over the last interval.
pub struct NetworkMetrics {
    pub network_rx_kb: u64,
    pub network_tx_kb: u64,
    pub network_rx_kb_per_sec: u64,
    pub network_tx_kb_per_sec: u64,
}

/// The byte counters of one network interface.
pub struct InterfaceCounters {
    /// Bytes received since the interface came up.
    pub total_received: u64,
    /// Bytes sent since the interface came up.
    pub total_transmitted: u64,
    /// Bytes received over the last interval.
    pub received: u64,
    /// Bytes sent over the last interval.
    pub transmitted: u64,
}

pub open spec fn total_received_column(s: Seq<InterfaceCounters>) -> Seq<u64> {
    s.map_values(|c: InterfaceCounters| c.total_received)
}

pub open spec fn total_transmitted_column(s: Seq<InterfaceCounters>) -> Seq<u64> {
    s.map_values(|c: InterfaceCounters| c.total_transmitted)
}

pub open spec fn received_column(s: Seq<InterfaceCounters>) -> Seq<u64> {
    s.map_values(|c: InterfaceCounters| c.received)
}

pub open spec fn transmitted_column(s: Seq<InterfaceCounters>) -> Seq<u64> {
    s.map_values(|c: InterfaceCounters| c.transmitted)
}

/// The network figures for the counters of all interfaces over `interval_secs` seconds;
/// nothing where one of the four sums does not fit in a `u64`.
pub open spec fn network_figures(s: Seq<InterfaceCounters>, interval_secs: u64) -> Option<
    NetworkMetrics,
> {
    let rx_total = sum(total_received_column(s));
    let tx_total = sum(total_transmitted_column(s));
    let rx = sum(received_column(s));
    let tx = sum(transmitted_column(s));
    if rx_total <= u64::MAX && tx_total <= u64::MAX && rx <= u64::MAX && tx <= u64::MAX {
        Some(
            NetworkMetrics {
                network_rx_kb: (rx_total / 1024) as u64,
                network_tx_kb: (tx_total / 1024) as u64,
                network_rx_kb_per_sec: kb_per_sec(rx, interval_secs) as u64,
                network_tx_kb_per_sec: kb_per_sec(tx, interval_secs) as u64,
            },
        )
    } else {
        None
    }
}

/// Sums the counters of all interfaces, in KiB, and turns the last interval's traffic
/// into KiB per second; `None` where a sum overflows.
pub fn network_metrics(interfaces: &[InterfaceCounters], interval_secs: u64) -> (r: Option<
    NetworkMetrics,
>)
    ensures
        r == network_figures(interfaces@, interval_secs),
{
    let mut rx_total: Vec<u64> = Vec::new();
    let mut tx_total: Vec<u64> = Vec::new();
    let mut rx: Vec<u64> = Vec::new();
    let mut tx: Vec<u64> = Vec::new();
    let mut i: usize = 0;
    while i < interfaces.len()
        invariant
            i <= interfaces.len(),
            rx_total@ =~= total_received_column(interfaces@.take(i as int)),
            tx_total@ =~= total_transmitted_column(interfaces@.take(i as int)),
            rx@ =~= received_column(interfaces@.take(i as int)),
            tx@ =~= transmitted_column(interfaces@.take(i as int)),
        decreases interfaces.len() - i,
    {
        let c = &interfaces[i];
        rx_total.push(c.total_received);
        tx_total.push(c.total_transmitted);
        rx.push(c.received);
        tx.push(c.transmitted);
        assert(interfaces@.take(i as int + 1) =~= interfaces@.take(i as int).push(interfaces@[i as int]));
        i = i + 1;
    }
    assert(interfaces@.take(interfaces.len() as int) =~= interfaces@);
    assert(rx_total@ == total_received_column(interfaces@));
    assert(tx_total@ == total_transmitted_column(interfaces@));
    assert(rx@ == received_column(interfaces@));
    assert(tx@ == transmitted_column(interfaces@));
    proof {
        crate::sum::lemma_sum_nonneg(rx_total@);
        crate::sum::lemma_sum_nonneg(tx_total@);
        crate::sum::lemma_sum_nonneg(rx@);
        crate::sum::lemma_sum_nonneg(tx@);
    }
    let rx_total_sum = checked_sum(rx_total.as_slice());
    let tx_total_sum = checked_sum(tx_total.as_slice());
    let rx_sum = checked_sum(rx.as_slice());
    let tx_sum = checked_sum(tx.as_slice());
    match (rx_total_sum, tx_total_sum, rx_sum, tx_sum) {
        (Some(a), Some(b), Some(c), Some(d)) => Some(
            NetworkMetrics {
                network_rx_kb: a / 1024,
                network_tx_kb: b / 1024,
                network_rx_kb_per_sec: kb_per_sec_exec(c, interval_secs),
                network_tx_kb_per_sec: kb_per_sec_exec(d, interval_secs),
            },
        ),
        _ => None,
    }
}

/// The network figures of the snapshot `networks` over `interval_secs` seconds; `None`
/// where a sum of the interfaces' counters overflows.
pub fn collect_network(networks: &Networks, interval_secs: u64) -> (r: Option<NetworkMetrics>)
    ensures
        exists|s: Seq<InterfaceCounters>| r == #[trigger] network_figures(s, interval_secs),
{
    let list = sys::network_list(networks);
    let mut counters: Vec<InterfaceCounters> = Vec::new();
    let mut i: usize = 0;
    while i < list.len()
        invariant
            i <= list.len(),
        decreases list.len() - i,
    {
        let data = list[i];
        counters.push(
            InterfaceCounters {
                total_received: sys::network_total_received(data),
                total_transmitted: sys::network_total_transmitted(data),
                received: sys::network_received(data),
                transmitted: sys::network_transmitted(data),
            },
        );
        i = i + 1;
    }
    let r = network_metrics(counters.as_slice(), interval_secs);
    assert(r == network_figures(counters@, interval_secs));
    r
}

} // verus!

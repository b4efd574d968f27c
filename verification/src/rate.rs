use vstd::prelude::*;

verus! {

/// The interval used to turn amounts into rates: an interval of 0 counts as 1 second.
pub open spec fn safe_interval(interval_secs: u64) -> int {
    if interval_secs == 0 {
        1
    } else {
        interval_secs as int
    }
}

/// `bytes` turned into whole KiB, spread over `interval_secs` seconds (rounded down).
pub open spec fn kb_per_sec(bytes: int, interval_secs: u64) -> int {
    (bytes / 1024) / safe_interval(interval_secs)
}

/// The KiB per second that `bytes` over `interval_secs` seconds make.
pub fn kb_per_sec_exec(bytes: u64, interval_secs: u64) -> (r: u64)
    ensures
        r == kb_per_sec(bytes as int, interval_secs),
{
    let safe = if interval_secs < 1 {
        1
    } else {
        interval_secs
    };
    (bytes / 1024) / safe
}

/// An interval of zero seconds gives the same rate as one of one second.
pub proof fn lemma_zero_interval_counts_as_one(bytes: int)
    ensures
        kb_per_sec(bytes, 0) == kb_per_sec(bytes, 1),
{
}

/// A rate, taken over its interval, never exceeds the amount: the KiB per second times
/// the seconds is at most the KiB, and one more KiB per second would exceed it.
pub proof fn lemma_rate_bounds(bytes: int, interval_secs: u64)
    requires
        bytes >= 0,
    ensures
        kb_per_sec(bytes, interval_secs) * safe_interval(interval_secs) <= bytes / 1024,
        bytes / 1024 < (kb_per_sec(bytes, interval_secs) + 1) * safe_interval(interval_secs),
{
    let k = bytes / 1024;
    let d = safe_interval(interval_secs);
    assert(k >= 0);
    assert(d >= 1);
    vstd::arithmetic::div_mod::lemma_fundamental_div_mod(k, d);
    assert(0 <= k % d < d) by {
        vstd::arithmetic::div_mod::lemma_mod_bound(k, d);
    }
    assert((k / d) * d == d * (k / d)) by {
        vstd::arithmetic::mul::lemma_mul_is_commutative(k / d, d);
    }
    assert((k / d + 1) * d == d * (k / d) + d) by {
        vstd::arithmetic::mul::lemma_mul_is_distributive_add_other_way(d, k / d, 1);
    }
}

} // verus!

use vstd::prelude::*;

verus! {

/// The sum of the numbers in `s`.
pub open spec fn sum(s: Seq<u64>) -> int
    decreases s.len(),
{
    if s.len() == 0 {
        0
    } else {
        sum(s.drop_last()) + s.last()
    }
}

/// A sum of numbers is never negative.
pub proof fn lemma_sum_nonneg(s: Seq<u64>)
    ensures
        sum(s) >= 0,
    decreases s.len(),
{
    if s.len() > 0 {
        lemma_sum_nonneg(s.drop_last());
    }
}

/// Summing one more number adds it to the sum.
pub proof fn lemma_sum_take_step(s: Seq<u64>, i: int)
    requires
        0 <= i < s.len(),
    ensures
        sum(s.take(i + 1)) == sum(s.take(i)) + s[i],
{
    assert(s.take(i + 1).drop_last() =~= s.take(i));
}

/// The sum of a prefix is at most the sum of the whole.
pub proof fn lemma_sum_prefix_le(s: Seq<u64>, k: int)
    requires
        0 <= k <= s.len(),
    ensures
        sum(s.take(k)) <= sum(s),
    decreases s.len(),
{
    if k < s.len() {
        assert(s.drop_last().take(k) =~= s.take(k));
        lemma_sum_prefix_le(s.drop_last(), k);
    } else {
        assert(s.take(k) =~= s);
    }
}

/// When every number of `a` is at most the one at the same place in `b`, so is the sum.
pub proof fn lemma_sum_le_pointwise(a: Seq<u64>, b: Seq<u64>)
    requires
        a.len() == b.len(),
        forall|i: int| 0 <= i < a.len() ==> a[i] <= b[i],
    ensures
        sum(a) <= sum(b),
    decreases a.len(),
{
    if a.len() > 0 {
        lemma_sum_le_pointwise(a.drop_last(), b.drop_last());
        assert(a.last() <= b.last());
    }
}

/// The sum of `v` when it fits in a `u64`, and nothing when adding up overflows.
pub fn checked_sum(v: &[u64]) -> (r: Option<u64>)
    ensures
        r == (if sum(v@) <= u64::MAX {
            Some(sum(v@) as u64)
        } else {
            None::<u64>
        }),
{
    let mut acc: u64 = 0;
    let mut i: usize = 0;
    while i < v.len()
        invariant
            i <= v.len(),
            acc == sum(v@.take(i as int)),
        decreases v.len() - i,
    {
        proof {
            lemma_sum_take_step(v@, i as int);
            lemma_sum_prefix_le(v@, i as int + 1);
        }
        match acc.checked_add(v[i]) {
            Some(s) => {
                acc = s;
            },
            None => {
                return None;
            },
        }
        i = i + 1;
    }
    assert(v@.take(v.len() as int) =~= v@);
    Some(acc)
}

} // verus!

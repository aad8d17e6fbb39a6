use vstd::prelude::*;

verus! {

/// Sum of the sizes seen while stat-ing the discovered paths; a failed
/// stat contributes zero.
pub open spec fn sum_known(s: Seq<Option<u64>>) -> int
    decreases s.len(),
{
    if s.len() == 0 {
        0
    } else {
        sum_known(s.drop_last()) + (match s.last() {
            Some(n) => n as int,
            None => 0,
        })
    }
}

/// The estimate is bounded by one maximal size per entry.
proof fn lemma_sum_known_bound(s: Seq<Option<u64>>)
    ensures
        0 <= sum_known(s) <= s.len() * (u64::MAX as int),
    decreases s.len(),
{
    if s.len() > 0 {
        lemma_sum_known_bound(s.drop_last());
        assert((s.len() - 1) * (u64::MAX as int) + (u64::MAX as int) == s.len() * (
        u64::MAX as int)) by (nonlinear_arith);
    }
}

/// The estimated total byte count of a scan: each discovered path
/// contributes the size its stat returned, and a failed stat contributes
/// zero rather than aborting discovery.
pub fn estimate_total_bytes(sizes: &Vec<Option<u64>>) -> (t: u128)
    ensures
        t == sum_known(sizes@),
{
    let n: usize = sizes.len();
    let mut t: u128 = 0;
    let mut i: usize = 0;
    while i < n
        invariant
            i <= n,
            n == sizes@.len(),
            t == sum_known(sizes@.take(i as int)),
        decreases n - i,
    {
        proof {
            lemma_sum_known_bound(sizes@.take(i as int));
            assert((i as int) * (u64::MAX as int) + (u64::MAX as int) == (i as int + 1) * (
            u64::MAX as int)) by (nonlinear_arith);
            assert((i as int + 1) * (u64::MAX as int) <= (usize::MAX as int) * (u64::MAX as int))
                by (nonlinear_arith)
                requires
                    i as int + 1 <= usize::MAX as int,
            ;
            assert((usize::MAX as int) * (u64::MAX as int) < u128::MAX as int) by (
            nonlinear_arith);
            assert(sizes@.take(i as int + 1).drop_last() =~= sizes@.take(i as int));
        }
        match sizes[i] {
            Some(n) => {
                t = t + (n as u128);
            },
            None => {
            },
        }
        i = i + 1;
    }
    proof {
        assert(sizes@.take(sizes@.len() as int) =~= sizes@);
    }
    t
}

} // verus!

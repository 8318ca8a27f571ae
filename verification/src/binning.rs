use vstd::prelude::*;

verus! {

/// The number of phases sampled across a bin of finite width.
pub const BIN_SAMPLES: usize = 5;

/// Twice the trapezoidal weight of sample `i` of `n` equally spaced samples:
/// the two end samples count half.
pub open spec fn spec_double_weight(i: int, n: int) -> int {
    if i == 0 || i == n - 1 {
        1
    } else {
        2
    }
}

/// Twice the trapezoidal weight of sample `i` of `n`: 1 for the two ends,
/// 2 for the samples between them.
pub fn double_weight(i: usize, n: usize) -> (w: u32)
    requires
        i < n,
    ensures
        w == spec_double_weight(i as int, n as int),
{
    if i == 0 || i == n - 1 {
        1
    } else {
        2
    }
}

/// The sum of the doubled weights of the first `k` of `n` samples.
pub open spec fn double_weight_sum(k: int, n: int) -> int
    decreases k,
{
    if k <= 0 {
        0
    } else {
        double_weight_sum(k - 1, n) + spec_double_weight(k - 1, n)
    }
}

/// The trapezoidal weights of `n >= 2` samples add up to the `n - 1`
/// intervals between them, so a flux that is constant across the bin
/// averages to itself.
pub proof fn lemma_weights_cover_bin(n: int)
    requires
        n >= 2,
    ensures
        double_weight_sum(n, n) == 2 * (n - 1),
{
    lemma_partial_weights(n, n);
}

proof fn lemma_partial_weights(k: int, n: int)
    requires
        1 <= k <= n,
        n >= 2,
    ensures
        double_weight_sum(k, n) == 2 * k - 1 - (if k == n {
            1int
        } else {
            0int
        }),
    decreases k,
{
    if k > 1 {
        lemma_partial_weights(k - 1, n);
    } else {
        assert(double_weight_sum(0, n) == 0);
    }
}

} // verus!

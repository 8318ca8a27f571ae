use vstd::prelude::*;

verus! {

/// Sum of a sequence of counts.
pub open spec fn total(s: Seq<usize>) -> int
    decreases s.len(),
{
    if s.len() == 0 {
        0
    } else {
        total(s.drop_last()) + s.last()
    }
}

/// Twice the number of tiles in a disc grid of `n` rings: ring `i` (counted
/// from the inside, starting at 0) holds `2n - i` tiles, so the whole grid
/// holds `n(3n + 1)/2`.
pub open spec fn twice_tiles(n: int) -> int {
    n * (3 * n + 1)
}

/// The number of rings of a disc grid that may hold at most `size` tiles:
/// the largest `n` with `n(3n + 1)/2 <= size`.
pub open spec fn is_ring_count(size: int, n: int) -> bool {
    &&& 0 <= n
    &&& twice_tiles(n) <= 2 * size
    &&& 2 * size < twice_tiles(n + 1)
}

/// The tile counts of the rings of an `n`-ring disc grid, innermost first.
pub open spec fn is_ring_layout(n: int, rings: Seq<usize>) -> bool {
    &&& rings.len() == n
    &&& forall|i: int| 0 <= i < n ==> rings[i] == 2 * n - i
}

proof fn lemma_twice_tiles_monotone(a: int, b: int)
    requires
        0 <= a <= b,
    ensures
        twice_tiles(a) <= twice_tiles(b),
        a <= twice_tiles(a),
{
    assert(a * (3 * a + 1) <= b * (3 * b + 1)) by (nonlinear_arith)
        requires
            0 <= a <= b,
    ;
    assert(a <= a * (3 * a + 1)) by (nonlinear_arith)
        requires
            0 <= a,
    ;
}

/// The number of rings of the disc grid for a requested tile count: the
/// largest `n` with `n(3n + 1)/2 <= size`, which is the integer part of
/// `(sqrt(1 + 24 size) - 1)/6`.
pub fn ring_count(size: usize) -> (n: usize)
    ensures
        is_ring_count(size as int, n as int),
{
    let target: u128 = 2 * (size as u128);
    let mut n: u128 = 0;
    loop
        invariant
            target == 2 * size,
            twice_tiles(n as int) <= target,
            n <= target,
        decreases target - n,
    {
        assert(n < 0x4_0000_0000) by (nonlinear_arith)
            requires
                n * (3 * n + 1) <= target,
                target < 0x2_0000_0000_0000_0000,
        ;
        assert((n + 1) * (3 * n + 4) < 0x1_0000_0000_0000_0000_0000) by (nonlinear_arith)
            requires
                n < 0x4_0000_0000,
        ;
        let next: u128 = (n + 1) * (3 * n + 4);
        assert(next == twice_tiles(n + 1)) by (nonlinear_arith)
            requires
                next == (n + 1) * (3 * n + 4),
        ;
        if next > target {
            assert(n <= size) by (nonlinear_arith)
                requires
                    n * (3 * n + 1) <= 2 * size,
            ;
            return n as usize;
        }
        proof {
            lemma_twice_tiles_monotone(n + 1, n + 1);
        }
        n = n + 1;
    }
}

/// The tile counts of the rings of an `n`-ring disc grid, innermost first:
/// ring `i` holds `2n - i` tiles, so the inner rings, which give most of the
/// light, are the finest.
pub fn ring_tile_counts(n: usize) -> (rings: Vec<usize>)
    requires
        2 * n <= usize::MAX,
    ensures
        is_ring_layout(n as int, rings@),
{
    let mut rings: Vec<usize> = Vec::new();
    let mut i: usize = 0;
    while i < n
        invariant
            i <= n,
            2 * n <= usize::MAX,
            rings@.len() == i,
            forall|k: int| 0 <= k < i ==> rings@[k] == 2 * n - k,
        decreases n - i,
    {
        rings.push(2 * n - i);
        i = i + 1;
    }
    rings
}

proof fn lemma_prefix_total(n: int, rings: Seq<usize>, k: int)
    requires
        is_ring_layout(n, rings),
        0 <= k <= n,
    ensures
        2 * total(rings.take(k)) == 4 * n * k - k * (k - 1),
    decreases k,
{
    if k == 0 {
        assert(rings.take(0) =~= Seq::<usize>::empty());
    } else {
        lemma_prefix_total(n, rings, k - 1);
        assert(rings.take(k).drop_last() =~= rings.take(k - 1));
        assert(rings[k - 1] == 2 * n - (k - 1));
        assert(rings.take(k).last() == 2 * n - (k - 1));
        assert(4 * n * k - k * (k - 1) == 4 * n * (k - 1) - (k - 1) * (k - 2) + 2 * (2 * n - (k
            - 1))) by (nonlinear_arith);
    }
}

/// A disc grid of `n` rings, laid out ring by ring, holds `n(3n + 1)/2`
/// tiles.
pub proof fn lemma_ring_layout_total(n: int, rings: Seq<usize>)
    requires
        is_ring_layout(n, rings),
    ensures
        2 * total(rings) == twice_tiles(n),
{
    lemma_prefix_total(n, rings, n);
    assert(rings.take(n) =~= rings);
    assert(4 * n * n - n * (n - 1) == n * (3 * n + 1)) by (nonlinear_arith);
}

/// The disc grid built for a requested tile count holds no more tiles than
/// requested, and one ring more would hold more than requested.
pub proof fn lemma_disc_grid_fits(size: int, n: int, rings: Seq<usize>)
    requires
        is_ring_count(size, n),
        is_ring_layout(n, rings),
    ensures
        total(rings) <= size,
        2 * size < twice_tiles(n + 1),
{
    lemma_ring_layout_total(n, rings);
}

/// Each ring of the disc grid holds more tiles than the ring outside it.
pub proof fn lemma_inner_rings_finer(n: int, rings: Seq<usize>, i: int, j: int)
    requires
        is_ring_layout(n, rings),
        0 <= i < j < n,
    ensures
        rings[i] > rings[j],
{
}

} // verus!

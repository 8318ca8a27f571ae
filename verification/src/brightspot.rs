use vstd::prelude::*;

verus! {

/// The fewest elements a bright-spot strip is cut into.
pub const MIN_SPOT_ELEMENTS: usize = 200;

/// The most elements a bright-spot strip is cut into.
pub const MAX_SPOT_ELEMENTS: usize = 1000;

/// The number of elements of each bright-spot strip for a wanted count:
/// the wanted count raised to at least 200 and cut to at most 1000.
pub open spec fn spec_spot_count(wanted: int) -> int {
    if wanted < MIN_SPOT_ELEMENTS {
        MIN_SPOT_ELEMENTS as int
    } else if wanted > MAX_SPOT_ELEMENTS {
        MAX_SPOT_ELEMENTS as int
    } else {
        wanted
    }
}

/// The number of elements of each bright-spot strip, from the count that
/// gives at least 50 elements between the start of the strip and its
/// brightest point: at least 200 and at most 1000.
pub fn spot_count(wanted: usize) -> (n: usize)
    ensures
        n == spec_spot_count(wanted as int),
        MIN_SPOT_ELEMENTS <= n <= MAX_SPOT_ELEMENTS,
        200 <= wanted <= 1000 ==> n == wanted,
        wanted < 200 ==> n == 200,
        wanted > 1000 ==> n == 1000,
{
    let raised = if wanted < MIN_SPOT_ELEMENTS {
        MIN_SPOT_ELEMENTS
    } else {
        wanted
    };
    if raised > MAX_SPOT_ELEMENTS {
        MAX_SPOT_ELEMENTS
    } else {
        raised
    }
}

/// What one slot of the bright-spot grid holds.
#[derive(Debug, Clone, Copy, PartialEq, Eq, Structural)]
pub enum StripSlot {
    /// Element `i` of the tilted (beamed) strip.
    Tilted(usize),
    /// Element `i` of the strip parallel to the disc (isotropic).
    Parallel(usize),
    /// A placeholder element that carries no flux.
    Filler,
}

/// The slot at index `k` of the grid after the first `i` elements of both
/// strips of `n` elements have been placed: the grid starts as `2n`
/// placeholders; step `i` inserts tilted element `i` at index `i` and then
/// parallel element `i` at index `i + n`.
pub open spec fn slot_after(n: int, i: int, k: int) -> StripSlot {
    if k < i {
        StripSlot::Tilted(k as usize)
    } else if k < i + n - 1 {
        StripSlot::Filler
    } else if k < 2 * i + n - 1 {
        StripSlot::Parallel((2 * i + n - 2 - k) as usize)
    } else {
        StripSlot::Filler
    }
}

/// The grid after the first `i` elements of both strips have been placed.
pub open spec fn layout_after(n: int, i: int) -> Seq<StripSlot> {
    Seq::new((2 * n + 2 * i) as nat, |k: int| slot_after(n, i, k))
}

/// The whole bright-spot grid for strips of `n` elements.
pub open spec fn strip_grid(n: int) -> Seq<StripSlot> {
    layout_after(n, n)
}

/// A wanted element count between 200 and 1000 is kept as it is.
pub proof fn lemma_spot_count_keeps_wanted(wanted: int)
    requires
        200 <= wanted <= 1000,
    ensures
        spec_spot_count(wanted) == wanted,
{
}

/// A wanted element count below 200 is raised to 200, and one above 1000
/// is cut to 1000.
pub proof fn lemma_spot_count_clamps(wanted: int)
    ensures
        wanted < 200 ==> spec_spot_count(wanted) == 200,
        wanted > 1000 ==> spec_spot_count(wanted) == 1000,
        200 <= spec_spot_count(wanted) <= 1000,
{
}

/// The element count never moves further from the wanted count than the
/// bounds force: it lies between the wanted count and the nearer bound, and
/// a larger wanted count never gives fewer elements.
pub proof fn lemma_spot_count_monotone(a: int, b: int)
    requires
        a <= b,
    ensures
        spec_spot_count(a) <= spec_spot_count(b),
        a <= 1000 ==> spec_spot_count(a) <= if a < 200 {
            200
        } else {
            a
        },
        a >= 200 ==> spec_spot_count(a) >= if a > 1000 {
            1000
        } else {
            a
        },
{
}

/// The layout of the bright-spot grid for strips of `n` elements each.
///
/// The grid starts as `2n` placeholders, and for each `i` from 0 the tilted
/// element `i` is inserted at index `i` and then the parallel element `i` at
/// index `i + n`. The result holds `4n` slots: the tilted strip in order at
/// indices `0..n`, then `n - 1` placeholders, then the parallel strip in
/// reverse order, then `n + 1` placeholders.
pub fn strip_layout(n: usize) -> (grid: Vec<StripSlot>)
    requires
        4 * n <= usize::MAX,
    ensures
        grid@ == strip_grid(n as int),
{
    let mut grid: Vec<StripSlot> = Vec::new();
    let mut k: usize = 0;
    while k < 2 * n
        invariant
            k <= 2 * n,
            4 * n <= usize::MAX,
            grid@.len() == k,
            forall|j: int| 0 <= j < k ==> grid@[j] == StripSlot::Filler,
        decreases 2 * n - k,
    {
        grid.push(StripSlot::Filler);
        k = k + 1;
    }
    assert(grid@ =~= layout_after(n as int, 0));
    let mut i: usize = 0;
    while i < n
        invariant
            i <= n,
            4 * n <= usize::MAX,
            grid@ == layout_after(n as int, i as int),
        decreases n - i,
    {
        let ghost before = grid@;
        grid.insert(i, StripSlot::Tilted(i));
        grid.insert(i + n, StripSlot::Parallel(i));
        proof {
            let after = layout_after(n as int, i + 1);
            assert(grid@.len() == after.len());
            assert forall|k: int| 0 <= k < after.len() implies grid@[k] == after[k] by {
                let mid = before.insert(i as int, StripSlot::Tilted(i));
                if k < i + n {
                    assert(grid@[k] == mid[k]);
                } else if k > i + n {
                    assert(grid@[k] == mid[k - 1]);
                }
            }
            assert(grid@ =~= after);
        }
        i = i + 1;
    }
    grid
}

/// The flux of the bright spot counts the slots below index `n` as the
/// tilted strip: those slots hold exactly the tilted elements, in order, and
/// no tilted element lies at or above index `n`.
pub proof fn lemma_tilted_strip_first(n: int, k: int)
    requires
        0 <= n,
        0 <= k < 4 * n,
    ensures
        k < n <==> strip_grid(n)[k] is Tilted,
        k < n ==> strip_grid(n)[k] == StripSlot::Tilted(k as usize),
{
}

/// The grid holds `4n` slots; the placeholders fill the `n - 1` slots after
/// the tilted strip and the `n + 1` slots after the parallel strip, `2n` in
/// all, and carry no element of either strip.
pub proof fn lemma_fillers_placed(n: int, k: int)
    requires
        1 <= n,
        0 <= k < 4 * n,
    ensures
        strip_grid(n).len() == 4 * n,
        strip_grid(n)[k] is Filler <==> (n <= k < 2 * n - 1 || 3 * n - 1 <= k),
{
}

/// Every element of the parallel strip lies in the grid once, at index
/// `3n - 2 - i`.
pub proof fn lemma_parallel_strip_placed(n: usize, i: usize)
    requires
        i < n,
        4 * n <= usize::MAX,
    ensures
        strip_grid(n as int)[3 * n - 2 - i] == StripSlot::Parallel(i),
        forall|k: int|
            0 <= k < 4 * n && strip_grid(n as int)[k] == StripSlot::Parallel(i) ==> k == 3 * n - 2
                - i,
{
    assert forall|k: int|
        0 <= k < 4 * n && strip_grid(n as int)[k] == StripSlot::Parallel(i) implies k == 3 * n - 2
        - i by {
        let j = 3 * n - 2 - k;
        assert(2 * n - 1 <= k < 3 * n - 1);
        assert(0 <= j < n);
        assert((j as usize) as int == j);
    }
}


} // verus!

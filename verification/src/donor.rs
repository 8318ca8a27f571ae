use vstd::prelude::*;

verus! {

/// The fewest surface elements on one latitude strip of the donor grid.
pub const MIN_LONGITUDES: usize = 16;

/// The number of latitude strips kept when the grid is not used: the flux
/// then comes from the analytical ellipsoidal-variation formula.
pub const PLACEHOLDER_LATITUDES: usize = 2;

/// How the donor computes its flux, from the requested number of latitude
/// strips: zero asks for the analytical formula (with a placeholder strip
/// count), any other count for a tiled surface of that many strips.
pub open spec fn spec_grid_mode(nlat: usize) -> (bool, usize) {
    if nlat == 0 {
        (true, PLACEHOLDER_LATITUDES)
    } else {
        (false, nlat)
    }
}

/// Whether the donor uses the analytical formula, and the number of latitude
/// strips it keeps.
pub fn grid_mode(nlat: usize) -> (res: (bool, usize))
    ensures
        res == spec_grid_mode(nlat),
        res.0 <==> nlat == 0,
        nlat == 0 ==> res == (true, 2usize),
        nlat != 0 ==> res == (false, nlat),
{
    if nlat == 0 {
        (true, PLACEHOLDER_LATITUDES)
    } else {
        (false, nlat)
    }
}

/// The number of surface elements on a latitude strip for the count that
/// keeps the elements of roughly equal area: at least 16.
pub open spec fn spec_longitude_count(wanted: usize) -> usize {
    if wanted < MIN_LONGITUDES {
        MIN_LONGITUDES
    } else {
        wanted
    }
}

/// The number of surface elements on one latitude strip of the donor grid.
pub fn longitude_count(wanted: usize) -> (n: usize)
    ensures
        n == spec_longitude_count(wanted),
        n >= MIN_LONGITUDES,
        wanted >= 16 ==> n == wanted,
        wanted < 16 ==> n == 16,
{
    if wanted < MIN_LONGITUDES {
        MIN_LONGITUDES
    } else {
        wanted
    }
}

/// The analytical formula is chosen exactly when no latitude strips are
/// asked for; otherwise the grid keeps the requested number of strips.
pub proof fn lemma_grid_mode_choice(nlat: usize)
    ensures
        spec_grid_mode(nlat).0 <==> nlat == 0,
        nlat != 0 ==> spec_grid_mode(nlat) == (false, nlat),
        nlat == 0 ==> spec_grid_mode(nlat) == (true, 2usize),
{
}

/// A latitude strip that asks for 16 or more elements gets exactly that many;
/// one that asks for fewer gets 16.
pub proof fn lemma_longitude_count_keeps_wanted(wanted: usize)
    ensures
        wanted >= 16 ==> spec_longitude_count(wanted) == wanted,
        wanted < 16 ==> spec_longitude_count(wanted) == 16,
{
}

/// The number of elements of a donor grid whose latitude strips ask for the
/// given counts.
pub open spec fn grid_points(wanted: Seq<usize>) -> int
    decreases wanted.len(),
{
    if wanted.len() == 0 {
        0
    } else {
        grid_points(wanted.drop_last()) + spec_longitude_count(wanted.last())
    }
}

/// The number of elements of the donor grid, from the counts each latitude
/// strip asks for; `None` where that number does not fit in a `usize`.
pub fn checked_grid_size(wanted: &Vec<usize>) -> (res: Option<usize>)
    ensures
        res matches Some(n) ==> n == grid_points(wanted@),
        res is None <==> grid_points(wanted@) > usize::MAX,
{
    let mut count: usize = 0;
    let mut i: usize = 0;
    while i < wanted.len()
        invariant
            i <= wanted.len(),
            count == grid_points(wanted@.take(i as int)),
        decreases wanted.len() - i,
    {
        proof {
            assert(wanted@.take(i + 1).drop_last() =~= wanted@.take(i as int));
        }
        let nface = longitude_count(wanted[i]);
        if count > usize::MAX - nface {
            proof {
                lemma_grid_points_prefix_monotone(wanted@, i + 1, wanted@.len() as int);
                assert(wanted@.take(wanted@.len() as int) =~= wanted@);
            }
            return None;
        }
        count = count + nface;
        i = i + 1;
    }
    proof {
        assert(wanted@.take(wanted@.len() as int) =~= wanted@);
    }
    Some(count)
}

proof fn lemma_grid_points_prefix_monotone(s: Seq<usize>, a: int, b: int)
    requires
        0 <= a <= b <= s.len(),
    ensures
        grid_points(s.take(a)) <= grid_points(s.take(b)),
    decreases b - a,
{
    if a < b {
        lemma_grid_points_prefix_monotone(s, a, b - 1);
        assert(s.take(b).drop_last() =~= s.take(b - 1));
    }
}

/// A donor grid with no latitude strips has no elements, and adding a strip
/// that asks for `x` elements adds `x` elements, or 16 if `x` is smaller.
pub proof fn lemma_grid_points_push(s: Seq<usize>, x: usize)
    ensures
        grid_points(Seq::<usize>::empty()) == 0,
        grid_points(s.push(x)) == grid_points(s) + if x < 16 {
            16
        } else {
            x as int
        },
{
    assert(s.push(x).drop_last() =~= s);
}

/// The element count of a grid is the sum of the element counts of any split
/// of its latitude strips into two consecutive groups.
pub proof fn lemma_grid_points_concat(s: Seq<usize>, t: Seq<usize>)
    ensures
        grid_points(s + t) == grid_points(s) + grid_points(t),
    decreases t.len(),
{
    if t.len() == 0 {
        assert(s + t =~= s);
    } else {
        lemma_grid_points_concat(s, t.drop_last());
        assert((s + t).drop_last() =~= s + t.drop_last());
        assert((s + t).last() == t.last());
    }
}

/// A grid whose strips each ask for at least 16 elements holds exactly the
/// sum of the requested counts.
pub proof fn lemma_grid_points_large_strips(s: Seq<usize>)
    requires
        forall|i: int| 0 <= i < s.len() ==> s[i] >= 16,
    ensures
        grid_points(s) == requested_total(s),
    decreases s.len(),
{
    if s.len() > 0 {
        lemma_grid_points_large_strips(s.drop_last());
    }
}

/// The sum of the requested counts.
pub open spec fn requested_total(s: Seq<usize>) -> int
    decreases s.len(),
{
    if s.len() == 0 {
        0
    } else {
        requested_total(s.drop_last()) + s.last()
    }
}

/// Every latitude strip of the donor grid holds at least 16 elements.
pub proof fn lemma_grid_points_lower_bound(wanted: Seq<usize>)
    ensures
        grid_points(wanted) >= MIN_LONGITUDES * wanted.len(),
    decreases wanted.len(),
{
    if wanted.len() > 0 {
        lemma_grid_points_lower_bound(wanted.drop_last());
    }
}

} // verus!

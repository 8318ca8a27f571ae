use vstd::prelude::*;

verus! {

/// The fewest annuli the white dwarf disc is cut into during a partial
/// eclipse.
pub const MIN_ANNULI: u32 = 10;

/// The number of annuli to sum over in a partial eclipse of the white dwarf,
/// from the count proportional to the uncovered width: at least 10.
pub fn annulus_count(wanted: u32) -> (n: u32)
    ensures
        n == (if wanted < MIN_ANNULI {
            MIN_ANNULI
        } else {
            wanted
        }),
{
    if wanted < MIN_ANNULI {
        MIN_ANNULI
    } else {
        wanted
    }
}

} // verus!

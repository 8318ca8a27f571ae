use vstd::prelude::*;

verus! {

/// The fewest steps taken along a photon path inside the donor's sphere.
pub const MIN_STEPS: i32 = 2;

/// The number of steps taken along the part of a photon path inside the
/// sphere around the donor, from the count the step size asks for: at least
/// 2.
pub fn step_count(wanted: i32) -> (n: i32)
    ensures
        n == (if wanted < MIN_STEPS {
            MIN_STEPS
        } else {
            wanted
        }),
{
    if wanted < MIN_STEPS {
        MIN_STEPS
    } else {
        wanted
    }
}

} // verus!

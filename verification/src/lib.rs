//! Discrete bookkeeping of the LFIT light-curve model: error reporting, the
//! layout of the surface grids of the disc, the bright spot and the donor
//! star, and the integer step counts used by the eclipse and flux routines.

pub mod errors;
pub mod disc;
pub mod brightspot;
pub mod donor;
pub mod whitedwarf;
pub mod blink;
pub mod binning;

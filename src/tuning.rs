use vstd::prelude::*;

verus! {

/// Number of power evaluations the tip-speed-ratio search may make.
pub const MAX_ITERATIONS: u32 = 20;

/// Relative power error accepted as a match, in hundredths (1 %).
pub const TOLERANCE_HUNDREDTHS: u32 = 1;

/// Gain of the proportional tip-speed-ratio update, in tenths (0.1).
pub const GAIN_TENTHS: u32 = 1;

/// Generator shaft speed, in RPM, against which the gearbox is sized.
pub const REFERENCE_GENERATOR_RPM: u32 = 1500;

/// Wind speed below which the turbine does not run, in tenths of m/s (2.5 m/s).
pub const CUT_IN_TENTHS_MPS: u32 = 25;

/// Wind speed above which the turbine does not run, in tenths of m/s (25 m/s).
pub const CUT_OUT_TENTHS_MPS: u32 = 250;

/// Empirical tip-speed ratio of a rotor with no blades, in halves (7.0).
pub const SEED_BASE_HALVES: u16 = 14;

/// Empirical optimal tip-speed ratio `7 + n / 2` of a rotor with `n` blades,
/// in halves: the seed of the search, exact for every blade count.
pub fn optimal_tsr_halves(num_blades: u8) -> (r: u16)
    ensures
        r == SEED_BASE_HALVES + num_blades,
{
    SEED_BASE_HALVES + num_blades as u16
}

} // verus!

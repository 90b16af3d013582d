use vstd::prelude::*;

verus! {

/// 1e-8: lengths under this number are treated as if they were zero.
pub const NEAR_ZERO_THRESHOLD: u64 = 0x3E45_798E_E230_8C3A;

/// 0.001: a surface is not looked for any nearer to the ray's origin than
/// this, so that a ray which starts on a surface does not hit it again
/// through rounding.
pub const MIN_HIT_DISTANCE: u64 = 0x3F50_624D_D2F1_A9FC;

} // verus!

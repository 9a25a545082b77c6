//! Camera smoothing.
//!
//! The lens center shown on screen is not the raw pointer position but an
//! exponentially smoothed version of it: each frame the effective position
//! moves a quarter of the way toward the raw position, a first-order
//! low-pass filter that keeps pointer jitter from causing visible jumps.
//! Positions are fixed-point screen coordinates.

use vstd::prelude::*;

verus! {

/// The reciprocal of the smoothing coefficient: each frame the effective
/// position covers one quarter of its distance to the raw position.
pub const SMOOTH_DIV: u64 = 4;

/// Largest coordinate the filter accepts, in fixed-point units.
pub const MAX_COORD_FX: u64 = 0x4000_0000;

/// One smoothing step: the effective position moves a quarter of the way
/// toward the raw position, rounded toward the effective position.
pub open spec fn spec_smooth(eff: int, raw: int) -> int {
    if raw >= eff {
        eff + (raw - eff) / 4
    } else {
        eff - (eff - raw) / 4
    }
}

/// The effective position after `n` smoothing steps toward a constant raw
/// position.
pub open spec fn spec_smooth_iter(eff: int, raw: int, n: nat) -> int
    decreases n,
{
    if n == 0 {
        eff
    } else {
        spec_smooth(spec_smooth_iter(eff, raw, (n - 1) as nat), raw)
    }
}

/// One smoothing step of a coordinate.
pub fn smooth_step(eff: u64, raw: u64) -> (r: u64)
    requires
        eff <= MAX_COORD_FX,
        raw <= MAX_COORD_FX,
    ensures
        r == spec_smooth(eff as int, raw as int),
        r <= MAX_COORD_FX,
{
    if raw >= eff {
        eff + (raw - eff) / 4
    } else {
        eff - (eff - raw) / 4
    }
}

/// The filter's fixed point: a raw position equal to the effective
/// position leaves the effective position unchanged.
pub proof fn lemma_smoothing_fixed_point(p: int)
    ensures
        spec_smooth(p, p) == p,
{
}

/// Across any number of frames with a constant raw position equal to the
/// initial effective position, the smoothed position never moves.
pub proof fn lemma_smoothing_fixed_point_frames(p: int, n: nat)
    ensures
        spec_smooth_iter(p, p, n) == p,
    decreases n,
{
    if n > 0 {
        lemma_smoothing_fixed_point_frames(p, (n - 1) as nat);
    }
}

} // verus!

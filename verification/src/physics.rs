//! Ray physics around a non-rotating (Schwarzschild) black hole.
//!
//! A simulated light ray starts at radius `start_r` and makes an incidence
//! angle `theta` with the inward radial direction; both are fixed-point
//! quantities (see `fixed`). The hole's Schwarzschild radius is one unit.
//!
//! Classification uses the critical-impact-parameter criterion of the
//! Schwarzschild geometry: a ray is captured exactly when its impact
//! parameter lies below `3*sqrt(3)/2` Schwarzschild radii. The impact
//! parameter is `start_r * sin(theta)`, with the sine taken in the
//! small-angle approximation and saturated at one radian; the criterion is
//! meaningful for start radii well outside the horizon, which the
//! preconditions demand.
//!
//! The recorded result angle is:
//! - for a captured ray, the azimuth swept around the hole before the
//!   radial coordinate falls below the horizon, obtained by fixed-step
//!   integration of the reciprocal-radius geodesic equation
//!   `u'' = (3/2) * rs * u^2 - u` over the azimuth; and
//! - for an escaping ray, the incidence angle plus the weak-field
//!   deflection `2 * rs / b`, which vanishes as the impact parameter grows.

use vstd::prelude::*;
use crate::fixed::{fx_mul, fx_div, FX_ONE, FX_MUL_LIMIT};

verus! {

/// The Schwarzschild radius, in fixed-point units: one whole unit.
pub const RS_FX: u64 = 65536;

/// Twice the Schwarzschild radius, in fixed-point units.
pub const TWO_RS_FX: u64 = 131072;

/// Three halves of the Schwarzschild radius, in fixed-point units; the
/// coefficient of the quadratic term of the geodesic equation.
pub const THREE_HALVES_RS_FX: u64 = 98304;

/// The critical impact parameter `3*sqrt(3)/2` Schwarzschild radii, in
/// fixed-point units: rays whose impact parameter lies below it fall in.
pub const B_CRIT_FX: u64 = 170267;

/// Azimuthal step of the capture integration, about pi/256 radians, in
/// fixed-point units.
pub const STEP_FX: u64 = 804;

/// Number of integration steps after which a fall is cut off.
pub const MAX_STEPS: u64 = 4096;

/// Reciprocal radius at the horizon, in fixed-point units.
pub const U_HORIZON_FX: u64 = 65536;

/// Cap on the reciprocal radius during integration.
pub const U_CAP_FX: u64 = 131072;

/// Cap on the reciprocal-radius slope during integration.
pub const V_CAP_FX: u64 = 0x8000_0000;

/// Smallest start radius the simulation accepts: two Schwarzschild radii.
pub const MIN_START_R_FX: u64 = 131072;

/// Largest start radius the simulation accepts.
pub const MAX_START_R_FX: u64 = 0x8000_0000;

/// The incidence angle's sine in the small-angle approximation, saturated
/// at one radian.
pub open spec fn spec_sat_angle(theta: int) -> int {
    if theta > 65536 {
        65536int
    } else {
        theta
    }
}

/// The impact parameter of a ray: start radius times the (approximated)
/// sine of the incidence angle.
pub open spec fn spec_impact(theta: int, start_r: int) -> int {
    (start_r * spec_sat_angle(theta)) / 65536
}

/// Whether a ray is captured: its impact parameter lies below the critical
/// impact parameter.
pub open spec fn spec_captured(theta: int, start_r: int) -> bool {
    spec_impact(theta, start_r) < B_CRIT_FX
}

/// The weak-field deflection of an escaping ray: twice the Schwarzschild
/// radius over the impact parameter.
pub open spec fn spec_deflection(theta: int, start_r: int) -> int {
    (TWO_RS_FX * 65536) / spec_impact(theta, start_r)
}

/// One integration step of the reciprocal-radius slope: the slope gains
/// the quadratic geodesic term and loses the linear one, clamped to
/// `[0, V_CAP_FX]` (a captured ray's fall never reverses).
pub open spec fn spec_next_v(u: int, v: int) -> int {
    let grow = (804 * ((((98304 * u) / 65536) * u) / 65536)) / 65536;
    let shrink = (804 * u) / 65536;
    if v + grow >= shrink {
        if v + grow - shrink > 0x8000_0000 {
            0x8000_0000int
        } else {
            v + grow - shrink
        }
    } else {
        0int
    }
}

/// One integration step of the reciprocal radius, clamped to `U_CAP_FX`.
pub open spec fn spec_next_u(u: int, v2: int) -> int {
    let du = (804 * v2) / 65536;
    if u + du > 131072 {
        131072int
    } else {
        u + du
    }
}

/// Number of integration steps until the reciprocal radius reaches the
/// horizon, or the fuel runs out.
pub open spec fn spec_fall_steps(u: int, v: int, fuel: nat) -> int
    decreases fuel,
{
    if fuel == 0 || u >= 65536 {
        0int
    } else {
        let v2 = spec_next_v(u, v);
        1 + spec_fall_steps(spec_next_u(u, v2), v2, (fuel - 1) as nat)
    }
}

/// The azimuth a captured ray sweeps before crossing the horizon: the
/// integration's step count times the step size. A ray aimed exactly at
/// the center falls radially and sweeps no azimuth.
pub open spec fn spec_swept(theta: int, start_r: int) -> int {
    if theta == 0 {
        0int
    } else {
        let u0: int = (65536int * 65536) / start_r;
        let v0: int = (u0 * 65536) / theta;
        804 * spec_fall_steps(u0, v0, MAX_STEPS as nat)
    }
}

/// The angle a ray's outcome records: swept azimuth when captured, the
/// deflected exit direction when escaping.
pub open spec fn spec_ray_result(theta: int, start_r: int) -> int {
    if spec_captured(theta, start_r) {
        spec_swept(theta, start_r)
    } else {
        theta + spec_deflection(theta, start_r)
    }
}

/// The incidence angle's saturated sine.
pub fn sat_angle(theta: u64) -> (r: u64)
    ensures
        r == spec_sat_angle(theta as int),
        r <= 65536,
{
    if theta > FX_ONE {
        FX_ONE
    } else {
        theta
    }
}

/// The impact parameter of a ray.
pub fn impact_parameter(theta: u64, start_r: u64) -> (b: u64)
    requires
        start_r < FX_MUL_LIMIT,
    ensures
        b == spec_impact(theta as int, start_r as int),
        b <= start_r,
{
    let s = sat_angle(theta);
    let b = fx_mul(start_r, s);
    proof {
        assert(start_r * s <= start_r * 65536) by (nonlinear_arith)
            requires
                s <= 65536,
                start_r >= 0,
        ;
        assert(start_r * 65536 / 65536 == start_r) by (nonlinear_arith);
        assert(start_r * s / 65536 <= start_r * 65536 / 65536) by (nonlinear_arith)
            requires
                start_r * s <= start_r * 65536,
        ;
    }
    b
}

/// Whether a ray is captured.
pub fn ray_captured(theta: u64, start_r: u64) -> (c: bool)
    requires
        start_r < FX_MUL_LIMIT,
    ensures
        c == spec_captured(theta as int, start_r as int),
{
    impact_parameter(theta, start_r) < B_CRIT_FX
}

/// Integrates the reciprocal-radius geodesic equation with fixed azimuthal
/// steps until the horizon is reached or the fuel runs out, and reports the
/// step count.
pub fn integrate_fall(u0: u64, v0: u64) -> (steps: u64)
    requires
        u0 <= U_CAP_FX,
        v0 <= V_CAP_FX,
    ensures
        steps == spec_fall_steps(u0 as int, v0 as int, MAX_STEPS as nat),
        steps <= MAX_STEPS,
{
    let mut u = u0;
    let mut v = v0;
    let mut k: u64 = 0;
    while k < MAX_STEPS && u < U_HORIZON_FX
        invariant
            k <= MAX_STEPS,
            u <= U_CAP_FX,
            v <= V_CAP_FX,
            k + spec_fall_steps(u as int, v as int, (MAX_STEPS - k) as nat)
                == spec_fall_steps(u0 as int, v0 as int, MAX_STEPS as nat),
        decreases MAX_STEPS - k,
    {
        let t1 = fx_mul(THREE_HALVES_RS_FX, u);
        proof {
            assert(98304 * u as int / 65536 <= 196608) by (nonlinear_arith)
                requires
                    u <= 131072,
            ;
        }
        let t2 = fx_mul(t1, u);
        proof {
            assert(t1 as int * u as int / 65536 <= 393216) by (nonlinear_arith)
                requires
                    t1 <= 196608,
                    u <= 131072,
            ;
        }
        let grow = fx_mul(STEP_FX, t2);
        let shrink = fx_mul(STEP_FX, u);
        let ghost old_u = u as int;
        let ghost old_v = v as int;
        v = if v + grow >= shrink {
            let t = v + grow - shrink;
            if t > V_CAP_FX {
                V_CAP_FX
            } else {
                t
            }
        } else {
            0
        };
        proof {
            assert(v == spec_next_v(old_u, old_v));
        }
        let du = fx_mul(STEP_FX, v);
        u = if u + du > U_CAP_FX {
            U_CAP_FX
        } else {
            u + du
        };
        proof {
            assert(u == spec_next_u(old_u, v as int));
        }
        k = k + 1;
    }
    k
}

/// The azimuth a captured ray sweeps before crossing the horizon.
pub fn swept_azimuth(theta: u64, start_r: u64) -> (a: u64)
    requires
        MIN_START_R_FX <= start_r <= MAX_START_R_FX,
        theta < FX_MUL_LIMIT,
    ensures
        a == spec_swept(theta as int, start_r as int),
        a <= STEP_FX * MAX_STEPS,
{
    if theta == 0 {
        return 0;
    }
    let u0 = fx_div(FX_ONE, start_r);
    proof {
        assert(65536int * 65536 / start_r as int <= 65536int * 65536 / 131072) by (nonlinear_arith)
            requires
                start_r >= 131072,
        ;
    }
    let v0 = fx_div(u0, theta);
    proof {
        assert(u0 as int * 65536 / theta as int <= 32768int * 65536) by (nonlinear_arith)
            requires
                u0 <= 32768,
                theta >= 1,
        ;
    }
    let steps = integrate_fall(u0, v0);
    steps * STEP_FX
}

/// The weak-field deflection of an escaping ray.
pub fn escape_deflection(theta: u64, start_r: u64) -> (d: u64)
    requires
        start_r < FX_MUL_LIMIT,
        !spec_captured(theta as int, start_r as int),
    ensures
        d == spec_deflection(theta as int, start_r as int),
        d <= 50451,
{
    let b = impact_parameter(theta, start_r);
    let d = fx_div(TWO_RS_FX, b);
    proof {
        assert(131072int * 65536 / b as int <= 131072int * 65536 / 170267) by (nonlinear_arith)
            requires
                b >= 170267,
        ;
    }
    d
}

/// A ray's outcome: the recorded result angle, and whether the ray was
/// captured.
pub fn ray_outcome(theta: u64, start_r: u64) -> (out: (u64, bool))
    requires
        MIN_START_R_FX <= start_r <= MAX_START_R_FX,
        theta < FX_MUL_LIMIT,
    ensures
        out.0 == spec_ray_result(theta as int, start_r as int),
        out.1 == spec_captured(theta as int, start_r as int),
        out.0 <= theta + STEP_FX * MAX_STEPS + 50451,
{
    if ray_captured(theta, start_r) {
        let a = swept_azimuth(theta, start_r);
        (a, true)
    } else {
        let d = escape_deflection(theta, start_r);
        (theta + d, false)
    }
}

/// A lower incidence angle never has the larger impact parameter: the
/// saturated sine and the product with the start radius are both monotone.
pub proof fn lemma_impact_monotone(t1: int, t2: int, start_r: int)
    requires
        0 <= t1 <= t2,
        start_r >= 0,
    ensures
        spec_impact(t1, start_r) <= spec_impact(t2, start_r),
{
    assert(spec_sat_angle(t1) <= spec_sat_angle(t2));
    assert(start_r * spec_sat_angle(t1) <= start_r * spec_sat_angle(t2)) by (nonlinear_arith)
        requires
            start_r >= 0,
            spec_sat_angle(t1) <= spec_sat_angle(t2),
    ;
    assert(start_r * spec_sat_angle(t1) / 65536 <= start_r * spec_sat_angle(t2) / 65536)
        by (nonlinear_arith)
        requires
            start_r * spec_sat_angle(t1) <= start_r * spec_sat_angle(t2),
    ;
}

/// Deflection dies off with distance: between two escaping rays, the one
/// at the higher incidence angle (the larger impact parameter) is bent no
/// more than the other, so escape results approach the incidence angle
/// itself as rays pass ever farther from the hole.
pub proof fn lemma_deflection_antitone(t1: int, t2: int, start_r: int)
    requires
        0 <= t1 <= t2,
        start_r >= 0,
        !spec_captured(t1, start_r),
    ensures
        spec_deflection(t2, start_r) <= spec_deflection(t1, start_r),
{
    lemma_impact_monotone(t1, t2, start_r);
    assert((TWO_RS_FX * 65536) / spec_impact(t2, start_r) <= (TWO_RS_FX * 65536) / spec_impact(
        t1,
        start_r,
    )) by (nonlinear_arith)
        requires
            spec_impact(t1, start_r) >= B_CRIT_FX,
            spec_impact(t1, start_r) <= spec_impact(t2, start_r),
    ;
}

/// Capture is monotone: if a ray at some incidence angle is captured, so is
/// every ray at a lower incidence angle.
pub proof fn lemma_captured_monotone(t1: int, t2: int, start_r: int)
    requires
        0 <= t1 <= t2,
        start_r >= 0,
        spec_captured(t2, start_r),
    ensures
        spec_captured(t1, start_r),
{
    lemma_impact_monotone(t1, t2, start_r);
}

} // verus!

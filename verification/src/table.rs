//! The outcome table: one record per discretized incidence angle.
//!
//! Since a Schwarzschild black hole is spherically symmetric, only the
//! angle between a ray and the line toward the hole's center matters. The
//! generator therefore precomputes, once, an outcome for each of `count`
//! uniformly spaced incidence angles over `[min, max)`: whether that ray is
//! captured, and the recorded result angle (see `physics`). The table is
//! addressed by the linear index-to-angle relation alone, so the per-frame
//! compositor needs no search structure.

use vstd::prelude::*;
use crate::fixed::FX_MUL_LIMIT;
use crate::physics::{
    ray_outcome, spec_captured, spec_ray_result, B_CRIT_FX, MAX_START_R_FX, MIN_START_R_FX,
    TWO_RS_FX,
};

verus! {

/// Largest table size the generator accepts.
pub const MAX_OUTCOMES: u64 = 0x10000;

/// The incidence angle of the table entry at index `i`: the range
/// `[min, max)` split into `count` uniform buckets.
pub open spec fn spec_bucket_angle(i: int, min: int, max: int, count: int) -> int {
    min + (i * (max - min)) / count
}

/// The stored capture flag for an incidence angle: one when captured, zero
/// when escaping.
pub open spec fn spec_capture_flag(theta: int, start_r: int) -> int {
    if spec_captured(theta, start_r) {
        1int
    } else {
        0int
    }
}

/// The incidence angle of the table entry at index `i`.
pub fn bucket_angle(i: u64, min: u64, max: u64, count: u64) -> (a: u64)
    requires
        i < count,
        count <= MAX_OUTCOMES,
        min <= max,
        max < FX_MUL_LIMIT,
    ensures
        a == spec_bucket_angle(i as int, min as int, max as int, count as int),
        a <= max,
{
    let d = max - min;
    proof {
        assert(i as int * d as int <= 0xFFFF * 0xFFFF_FFFF) by (nonlinear_arith)
            requires
                i <= 0xFFFF,
                d <= 0xFFFF_FFFF,
        ;
        assert(i as int * d as int / count as int <= d) by (nonlinear_arith)
            requires
                0 <= i < count,
                d >= 0,
        ;
    }
    min + (i * d) / count
}

/// Bucket angles never decrease with the index.
pub proof fn lemma_bucket_angle_monotone(i: int, j: int, min: int, max: int, count: int)
    requires
        0 <= i <= j < count,
        min <= max,
    ensures
        spec_bucket_angle(i, min, max, count) <= spec_bucket_angle(j, min, max, count),
{
    assert(i * (max - min) <= j * (max - min)) by (nonlinear_arith)
        requires
            0 <= i <= j,
            max - min >= 0,
    ;
    assert(i * (max - min) / count <= j * (max - min) / count) by (nonlinear_arith)
        requires
            count > 0,
            i * (max - min) <= j * (max - min),
    ;
}

/// Runs the one-shot simulation over every bucket and returns the two
/// equal-length sequences of the table: the result angles and the capture
/// flags. Entry `i` describes the ray whose incidence angle is
/// `min + i * (max - min) / num`.
pub fn generate_outcomes(min: u64, max: u64, num: u64, start_r: u64) -> (out: (Vec<u64>, Vec<u8>))
    requires
        min <= max,
        max < FX_MUL_LIMIT,
        0 < num <= MAX_OUTCOMES,
        MIN_START_R_FX <= start_r <= MAX_START_R_FX,
    ensures
        out.0@.len() == num,
        out.1@.len() == num,
        forall|i: int|
            0 <= i < num ==> out.0@[i] == spec_ray_result(
                spec_bucket_angle(i, min as int, max as int, num as int),
                start_r as int,
            ),
        forall|i: int|
            0 <= i < num ==> out.1@[i] == spec_capture_flag(
                spec_bucket_angle(i, min as int, max as int, num as int),
                start_r as int,
            ),
{
    let mut angles: Vec<u64> = Vec::new();
    let mut flags: Vec<u8> = Vec::new();
    let mut i: u64 = 0;
    while i < num
        invariant
            i <= num,
            min <= max,
            max < FX_MUL_LIMIT,
            0 < num <= MAX_OUTCOMES,
            MIN_START_R_FX <= start_r <= MAX_START_R_FX,
            angles@.len() == i,
            flags@.len() == i,
            forall|j: int|
                0 <= j < i ==> angles@[j] == spec_ray_result(
                    spec_bucket_angle(j, min as int, max as int, num as int),
                    start_r as int,
                ),
            forall|j: int|
                0 <= j < i ==> flags@[j] == spec_capture_flag(
                    spec_bucket_angle(j, min as int, max as int, num as int),
                    start_r as int,
                ),
        decreases num - i,
    {
        let theta = bucket_angle(i, min, max, num);
        let (result, captured) = ray_outcome(theta, start_r);
        angles.push(result);
        flags.push(if captured { 1 } else { 0 });
        i = i + 1;
    }
    (angles, flags)
}

/// The table has a single capture boundary: scanning by increasing index
/// (that is, by increasing incidence angle), the capture flag switches from
/// set to clear at most once — whenever the entry at the higher index is
/// captured, so is every entry below it.
pub proof fn lemma_single_capture_boundary(
    min: int,
    max: int,
    count: int,
    start_r: int,
    i: int,
    j: int,
)
    requires
        0 <= i <= j < count,
        0 <= min <= max,
        start_r >= 0,
        spec_captured(spec_bucket_angle(j, min, max, count), start_r),
    ensures
        spec_captured(spec_bucket_angle(i, min, max, count), start_r),
{
    lemma_bucket_angle_monotone(i, j, min, max, count);
    assert(spec_bucket_angle(i, min, max, count) >= 0) by {
        assert(i * (max - min) >= 0) by (nonlinear_arith)
            requires
                i >= 0,
                max - min >= 0,
        ;
        assert(i * (max - min) / count >= 0) by (nonlinear_arith)
            requires
                count > 0,
                i * (max - min) >= 0,
        ;
    }
    crate::physics::lemma_captured_monotone(
        spec_bucket_angle(i, min, max, count),
        spec_bucket_angle(j, min, max, count),
        start_r,
    );
}

/// The same boundary, read off a generated flag sequence: wherever a
/// higher entry carries the capture flag, so does every entry below it,
/// so the flags never oscillate.
pub proof fn lemma_flags_single_boundary(
    flags: Seq<u8>,
    min: int,
    max: int,
    count: int,
    start_r: int,
    i: int,
    j: int,
)
    requires
        flags.len() == count,
        forall|k: int|
            0 <= k < count ==> flags[k] == spec_capture_flag(
                spec_bucket_angle(k, min, max, count),
                start_r,
            ),
        0 <= i <= j < count,
        0 <= min <= max,
        start_r >= 0,
        flags[j] == 1,
    ensures
        flags[i] == 1,
{
    assert(spec_captured(spec_bucket_angle(j, min, max, count), start_r));
    lemma_single_capture_boundary(min, max, count, start_r, i, j);
}

/// Rays at the low end of the angle range fall straight in: whenever the
/// start radius lies within the capture range that the configured angle
/// range implies (the ray at the range's minimum angle is captured), the
/// first table entry carries the capture flag.
pub proof fn lemma_lowest_bucket_captured(min: int, max: int, count: int, start_r: int)
    requires
        0 < count,
        min <= max,
        start_r >= 0,
        spec_captured(min, start_r),
    ensures
        spec_capture_flag(spec_bucket_angle(0, min, max, count), start_r) == 1,
{
    assert(spec_bucket_angle(0, min, max, count) == min);
}

/// Rays far from the optical axis escape with negligible deflection: at
/// incidence angles of a radian or more (where the saturated sine is one,
/// so the impact parameter is the whole start radius) a ray from beyond the
/// critical impact parameter escapes, and its recorded result angle exceeds
/// the incidence angle by exactly the weak-field deflection, which shrinks
/// as the start radius grows.
pub proof fn lemma_wide_rays_escape(theta: int, start_r: int)
    requires
        theta >= 65536,
        start_r > B_CRIT_FX,
    ensures
        !spec_captured(theta, start_r),
        spec_ray_result(theta, start_r) == theta + (TWO_RS_FX * 65536) / start_r,
{
    assert(start_r * 65536 / 65536 == start_r) by (nonlinear_arith);
}

/// Table generation is deterministic and idempotent: any two tables whose
/// entries satisfy the generator's contract for the same parameters are
/// identical, entry for entry.
pub proof fn lemma_generation_deterministic(
    a1: Seq<u64>,
    c1: Seq<u8>,
    a2: Seq<u64>,
    c2: Seq<u8>,
    min: int,
    max: int,
    num: int,
    start_r: int,
)
    requires
        a1.len() == num,
        a2.len() == num,
        c1.len() == num,
        c2.len() == num,
        forall|i: int|
            0 <= i < num ==> a1[i] == spec_ray_result(
                spec_bucket_angle(i, min, max, num),
                start_r,
            ),
        forall|i: int|
            0 <= i < num ==> a2[i] == spec_ray_result(
                spec_bucket_angle(i, min, max, num),
                start_r,
            ),
        forall|i: int|
            0 <= i < num ==> c1[i] == spec_capture_flag(
                spec_bucket_angle(i, min, max, num),
                start_r,
            ),
        forall|i: int|
            0 <= i < num ==> c2[i] == spec_capture_flag(
                spec_bucket_angle(i, min, max, num),
                start_r,
            ),
    ensures
        a1 == a2,
        c1 == c2,
{
    assert(a1 =~= a2);
    assert(c1 =~= c2);
}

/// The table index whose bucket is nearest below a given incidence angle,
/// clamped into the table: the inverse of the linear index-to-angle
/// relation.
pub open spec fn spec_bucket_index(angle: int, min: int, max: int, count: int) -> int {
    if angle <= min {
        0int
    } else {
        let idx = ((angle - min) * count) / (max - min);
        if idx >= count {
            count - 1
        } else {
            idx
        }
    }
}

/// The clamped index always lands inside the table.
pub proof fn lemma_bucket_index_range(angle: int, min: int, max: int, count: int)
    requires
        min < max,
        count >= 1,
    ensures
        0 <= spec_bucket_index(angle, min, max, count) < count,
{
    if angle > min {
        assert((angle - min) * count >= 0) by (nonlinear_arith)
            requires
                angle - min >= 0,
                count >= 0,
        ;
        assert((angle - min) * count / (max - min) >= 0) by (nonlinear_arith)
            requires
                max - min > 0,
                (angle - min) * count >= 0,
        ;
    }
}

/// The table index for an incidence angle.
pub fn bucket_index(angle: u64, min: u64, max: u64, count: u64) -> (idx: u64)
    requires
        min < max,
        max < FX_MUL_LIMIT,
        0 < count <= MAX_OUTCOMES,
        angle < FX_MUL_LIMIT,
    ensures
        idx == spec_bucket_index(angle as int, min as int, max as int, count as int),
        idx < count,
{
    if angle <= min {
        return 0;
    }
    proof {
        assert((angle - min) as int * count as int <= 0xFFFF_FFFF * 0x10000) by (nonlinear_arith)
            requires
                angle - min <= 0xFFFF_FFFF,
                count <= 0x10000,
                angle >= min,
        ;
    }
    let idx = ((angle - min) * count) / (max - min);
    if idx >= count {
        count - 1
    } else {
        idx
    }
}

} // verus!

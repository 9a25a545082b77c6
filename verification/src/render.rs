//! The per-frame compositor.
//!
//! For every destination pixel the compositor shoots a regular `aa x aa`
//! grid of sub-samples (a deterministic grid, so a frame is reproducible
//! for a fixed camera state). Each sub-sample takes the vector from the
//! lens center to the sub-sample position, derives its magnitude and polar
//! angle, maps the magnitude through the field-of-view scale to an
//! incidence angle, and looks the angle up in the precomputed outcome
//! table by the linear index relation. A captured ray samples the
//! event-horizon texture, an escaping ray samples the sky texture at the
//! deflected direction; the sub-sample colors are averaged channel by
//! channel into the pixel.
//!
//! The polar angle uses a first-order octant approximation of the
//! arctangent, adequate for steering texture lookups; the mapping of a
//! result angle and a polar angle onto texture coordinates wraps both into
//! one turn.

use vstd::prelude::*;
use crate::fixed::{
    fx_div, fx_mul, isqrt, spec_isqrt, FX_MUL_LIMIT, FX_ONE, FX_PI, FX_PI_2,
    FX_PI_4, FX_TWO_PI,
};
use crate::table::{bucket_index, spec_bucket_index, MAX_OUTCOMES};
use crate::texture::{Rgba, Texture};

verus! {

/// Largest screen edge the compositor accepts, in pixels.
pub const MAX_RES: u32 = 0x4000;

/// Largest antialias factor the compositor accepts.
pub const MAX_AA: u32 = 256;

/// Largest lens-center coordinate, in fixed-point units.
pub const MAX_CENTER_FX: u64 = 0x4000_0000;

/// Default field-of-view scale: incidence angle units gained per
/// fixed-point pixel of screen-space radius. At this scale the simulated
/// angle range of five radians spans four hundred pixels of radius.
pub const DEFAULT_ANGLE_SCALE: u64 = 819;

/// How a frame is projected: resolution, supersampling, lens center, and the
/// mapping from screen-space radius to the table's angle domain.
#[derive(Clone, Copy)]
pub struct Viewport {
    pub x_res: u32,
    pub y_res: u32,
    pub aa: u32,
    pub cx: u64,
    pub cy: u64,
    pub angle_scale: u64,
    pub min_angle: u64,
    pub max_angle: u64,
}

impl Viewport {
    /// Validity of the view parameters.
    pub open spec fn wf(self) -> bool {
        &&& 1 <= self.x_res <= MAX_RES
        &&& 1 <= self.y_res <= MAX_RES
        &&& 1 <= self.aa <= MAX_AA
        &&& self.cx <= MAX_CENTER_FX
        &&& self.cy <= MAX_CENTER_FX
        &&& 1 <= self.angle_scale <= FX_ONE
        &&& self.min_angle < self.max_angle
        &&& self.max_angle < FX_MUL_LIMIT
    }
}

/// The octant arctangent approximation: the ratio of the two magnitudes,
/// scaled by pi/4.
pub open spec fn spec_octant_atan(num: int, den: int) -> int {
    (((num * 65536) / den) * 51472) / 65536
}

/// The polar angle of the vector whose component magnitudes are `dx` and
/// `dy` and whose component signs are carried by the two flags, in
/// `[0, 2*pi)` fixed-point units.
pub open spec fn spec_polar_angle(dx: int, dy: int, x_neg: bool, y_neg: bool) -> int {
    if dx == 0 && dy == 0 {
        0int
    } else {
        let base = if dx >= dy {
            spec_octant_atan(dy, dx)
        } else {
            FX_PI_2 - spec_octant_atan(dx, dy)
        };
        if !x_neg && !y_neg {
            base
        } else if x_neg && !y_neg {
            FX_PI - base
        } else if x_neg && y_neg {
            FX_PI + base
        } else if base == 0 {
            0int
        } else {
            FX_TWO_PI - base
        }
    }
}

/// The octant base angle lies within the first octant.
proof fn lemma_octant_atan_range(num: int, den: int)
    requires
        0 <= num <= den,
        den > 0,
    ensures
        0 <= spec_octant_atan(num, den) <= FX_PI_4,
{
    assert(num * 65536 <= den * 65536) by (nonlinear_arith)
        requires
            num <= den,
    ;
    assert(num * 65536 >= 0) by (nonlinear_arith)
        requires
            num >= 0,
    ;
    let z = (num * 65536) / den;
    assert(0 <= z <= 65536) by (nonlinear_arith)
        requires
            z == (num * 65536) / den,
            den > 0,
            0 <= num * 65536 <= den * 65536,
    ;
    assert(0 <= z * 51472 <= 65536 * 51472) by (nonlinear_arith)
        requires
            0 <= z <= 65536,
    ;
}

/// The polar angle stays within one turn.
pub proof fn lemma_polar_angle_range(dx: int, dy: int, x_neg: bool, y_neg: bool)
    requires
        dx >= 0,
        dy >= 0,
    ensures
        0 <= spec_polar_angle(dx, dy, x_neg, y_neg) < FX_TWO_PI,
{
    if !(dx == 0 && dy == 0) {
        if dx >= dy {
            lemma_octant_atan_range(dy, dx);
        } else {
            lemma_octant_atan_range(dx, dy);
        }
    }
}

/// The polar angle of a screen-space vector.
pub fn polar_angle(dx: u64, dy: u64, x_neg: bool, y_neg: bool) -> (a: u64)
    requires
        dx <= 0x1_0000_0000,
        dy <= 0x1_0000_0000,
    ensures
        a == spec_polar_angle(dx as int, dy as int, x_neg, y_neg),
        a < FX_TWO_PI,
{
    proof {
        lemma_polar_angle_range(dx as int, dy as int, x_neg, y_neg);
    }
    if dx == 0 && dy == 0 {
        return 0;
    }
    let base = if dx >= dy {
        proof {
            lemma_octant_atan_range(dy as int, dx as int);
        }
        let z = fx_div(dy, dx);
        proof {
            assert(z <= 65536) by (nonlinear_arith)
                requires
                    dx > 0,
                    dy <= dx,
                    z == (dy as int * 65536) / (dx as int),
            ;
        }
        fx_mul(z, FX_PI_4)
    } else {
        proof {
            lemma_octant_atan_range(dx as int, dy as int);
        }
        let z = fx_div(dx, dy);
        proof {
            assert(z <= 65536) by (nonlinear_arith)
                requires
                    dy > 0,
                    dx <= dy,
                    z == (dx as int * 65536) / (dy as int),
            ;
        }
        FX_PI_2 - fx_mul(z, FX_PI_4)
    };
    if !x_neg && !y_neg {
        base
    } else if x_neg && !y_neg {
        FX_PI - base
    } else if x_neg && y_neg {
        FX_PI + base
    } else if base == 0 {
        0
    } else {
        FX_TWO_PI - base
    }
}

/// The fixed-point screen position of sub-sample `s` of `aa` within pixel
/// `p`: the regular grid places sample centers at odd multiples of half a
/// sub-pixel.
pub open spec fn spec_sub_pos(p: int, s: int, aa: int) -> int {
    p * 65536 + ((2 * s + 1) * 65536) / (2 * aa)
}

/// The magnitude of a difference.
pub open spec fn spec_abs_diff(a: int, b: int) -> int {
    if a >= b {
        a - b
    } else {
        b - a
    }
}

/// The incidence angle a sub-sample's ray makes: the screen-space distance
/// from the lens center, mapped through the field-of-view scale.
pub open spec fn spec_incidence(view: Viewport, px: int, py: int, sx: int, sy: int) -> int {
    let x = spec_sub_pos(px, sx, view.aa as int);
    let y = spec_sub_pos(py, sy, view.aa as int);
    let dx = spec_abs_diff(x, view.cx as int);
    let dy = spec_abs_diff(y, view.cy as int);
    (spec_isqrt(dx * dx + dy * dy) * view.angle_scale) / 65536
}

/// The color a single sub-sample contributes: the outcome-table lookup
/// decides which texture is sampled, and the recorded result angle and the
/// sub-sample's polar angle, each wrapped into one turn, steer the lookup.
pub open spec fn spec_subsample_color(
    angles: Seq<u64>,
    flags: Seq<u8>,
    sky: Texture,
    sphere: Texture,
    view: Viewport,
    px: int,
    py: int,
    sx: int,
    sy: int,
) -> Rgba {
    let x = spec_sub_pos(px, sx, view.aa as int);
    let y = spec_sub_pos(py, sy, view.aa as int);
    let dx = spec_abs_diff(x, view.cx as int);
    let dy = spec_abs_diff(y, view.cy as int);
    let dir = spec_polar_angle(dx, dy, (x < view.cx), (y < view.cy));
    let inc = spec_incidence(view, px, py, sx, sy);
    let idx = spec_bucket_index(
        inc,
        view.min_angle as int,
        view.max_angle as int,
        flags.len() as int,
    );
    let wrapped = (angles[idx] as int) % (FX_TWO_PI as int);
    let dir_coord = (dir * 65536) / (FX_TWO_PI as int);
    let res_coord = (wrapped * 65536) / (FX_TWO_PI as int);
    if flags[idx] == 1 {
        sphere.spec_sample(res_coord, dir_coord)
    } else {
        sky.spec_sample(dir_coord, res_coord)
    }
}

/// The color a single sub-sample contributes.
pub fn subsample_color(
    angles: &Vec<u64>,
    flags: &Vec<u8>,
    sky: &Texture,
    sphere: &Texture,
    view: Viewport,
    px: u32,
    py: u32,
    sx: u32,
    sy: u32,
) -> (c: Rgba)
    requires
        view.wf(),
        sky.wf(),
        sphere.wf(),
        angles@.len() == flags@.len(),
        0 < flags@.len() <= MAX_OUTCOMES,
        px < view.x_res,
        py < view.y_res,
        sx < view.aa,
        sy < view.aa,
    ensures
        c == spec_subsample_color(angles@, flags@, *sky, *sphere, view, px as int, py as int,
            sx as int, sy as int),
{
    let x = sub_pos(px, sx, view.aa);
    let y = sub_pos(py, sy, view.aa);
    let (dx, x_neg) = if x >= view.cx {
        (x - view.cx, false)
    } else {
        (view.cx - x, true)
    };
    let (dy, y_neg) = if y >= view.cy {
        (y - view.cy, false)
    } else {
        (view.cy - y, true)
    };
    proof {
        assert(dx as int * dx as int <= 0x4001_0000 * 0x4001_0000) by (nonlinear_arith)
            requires
                dx <= 0x4001_0000,
        ;
        assert(dy as int * dy as int <= 0x4001_0000 * 0x4001_0000) by (nonlinear_arith)
            requires
                dy <= 0x4001_0000,
        ;
    }
    let dist = isqrt(dx * dx + dy * dy);
    proof {
        assert(dist as int * dist as int <= dx as int * dx as int + dy as int * dy as int);
        assert(dist <= 0x8002_0000) by (nonlinear_arith)
            requires
                dist as int * dist as int <= 2 * (0x4001_0000 * 0x4001_0000),
                dist >= 0,
        ;
    }
    let inc = fx_mul(dist, view.angle_scale);
    proof {
        assert(dist as int * view.angle_scale as int / 65536 <= 0x8002_0000) by (nonlinear_arith)
            requires
                dist <= 0x8002_0000,
                view.angle_scale <= 65536,
        ;
    }
    let dir = polar_angle(dx, dy, x_neg, y_neg);
    let idx = bucket_index(inc, view.min_angle, view.max_angle, flags.len() as u64);
    let res = angles[idx as usize];
    let wrapped = res % FX_TWO_PI;
    let dir_coord = (dir * 65536) / FX_TWO_PI;
    let res_coord = (wrapped * 65536) / FX_TWO_PI;
    proof {
        lemma_turn_coord_in_range(dir as int);
        lemma_turn_coord_in_range(wrapped as int);
    }
    if flags[idx as usize] == 1 {
        sphere.sample(res_coord, dir_coord)
    } else {
        sky.sample(dir_coord, res_coord)
    }
}

/// Scaling an angle within one turn down by the turn yields a coordinate
/// under one.
pub proof fn lemma_turn_coord_in_range(a: int)
    requires
        0 <= a < FX_TWO_PI,
    ensures
        0 <= (a * 65536) / (FX_TWO_PI as int) < 65536,
{
    assert(a * 65536 <= 411774 * 65536) by (nonlinear_arith)
        requires
            a <= 411774,
    ;
    assert(a * 65536 >= 0) by (nonlinear_arith)
        requires
            a >= 0,
    ;
    assert(0 <= (a * 65536) / 411775 < 65536) by (nonlinear_arith)
        requires
            0 <= a * 65536 <= 411774 * 65536,
    ;
}

/// The fixed-point screen position of a sub-sample.
pub fn sub_pos(p: u32, s: u32, aa: u32) -> (r: u64)
    requires
        p <= MAX_RES,
        s < aa,
        1 <= aa <= MAX_AA,
    ensures
        r == spec_sub_pos(p as int, s as int, aa as int),
        r <= 0x4001_0000,
        r <= p * 65536 + 65535,
{
    let frac = ((2 * (s as u64) + 1) * 65536) / (2 * (aa as u64));
    proof {
        assert((2 * (s as int) + 1) * 65536 < (2 * (aa as int)) * 65536) by (nonlinear_arith)
            requires
                s < aa,
        ;
        assert(((2 * (s as int) + 1) * 65536) / (2 * (aa as int)) < 65536) by (nonlinear_arith)
            requires
                aa >= 1,
                (2 * (s as int) + 1) * 65536 < (2 * (aa as int)) * 65536,
        ;
        assert(((2 * (s as int) + 1) * 65536) / (2 * (aa as int)) >= 0) by (nonlinear_arith)
            requires
                aa >= 1,
                s >= 0,
        ;
    }
    (p as u64) * 65536 + frac
}

/// The channel sums of the first `k` sub-samples of a pixel, taken in
/// row-major sub-sample order.
pub open spec fn spec_sample_sum(
    angles: Seq<u64>,
    flags: Seq<u8>,
    sky: Texture,
    sphere: Texture,
    view: Viewport,
    px: int,
    py: int,
    k: int,
) -> (int, int, int, int)
    decreases k,
{
    if k <= 0 {
        (0int, 0int, 0int, 0int)
    } else {
        let s = spec_sample_sum(angles, flags, sky, sphere, view, px, py, k - 1);
        let c = spec_subsample_color(
            angles,
            flags,
            sky,
            sphere,
            view,
            px,
            py,
            (k - 1) % (view.aa as int),
            (k - 1) / (view.aa as int),
        );
        (s.0 + c.r, s.1 + c.g, s.2 + c.b, s.3 + c.a)
    }
}

/// The supersampled color of one pixel: the channelwise average of its
/// `aa * aa` sub-sample colors.
pub open spec fn spec_pixel_color(
    angles: Seq<u64>,
    flags: Seq<u8>,
    sky: Texture,
    sphere: Texture,
    view: Viewport,
    px: int,
    py: int,
) -> Rgba {
    let n = (view.aa as int) * (view.aa as int);
    let s = spec_sample_sum(angles, flags, sky, sphere, view, px, py, n);
    Rgba { r: (s.0 / n) as u8, g: (s.1 / n) as u8, b: (s.2 / n) as u8, a: (s.3 / n) as u8 }
}

/// The supersampled color of one pixel.
pub fn pixel_color(
    angles: &Vec<u64>,
    flags: &Vec<u8>,
    sky: &Texture,
    sphere: &Texture,
    view: Viewport,
    px: u32,
    py: u32,
) -> (c: Rgba)
    requires
        view.wf(),
        sky.wf(),
        sphere.wf(),
        angles@.len() == flags@.len(),
        0 < flags@.len() <= MAX_OUTCOMES,
        px < view.x_res,
        py < view.y_res,
    ensures
        c == spec_pixel_color(angles@, flags@, *sky, *sphere, view, px as int, py as int),
{
    proof {
        assert(view.aa as int * view.aa as int <= 65536) by (nonlinear_arith)
            requires
                view.aa <= 256,
        ;
        assert(view.aa as int * view.aa as int >= 1) by (nonlinear_arith)
            requires
                view.aa >= 1,
        ;
    }
    let n: u32 = view.aa * view.aa;
    let mut sr: u32 = 0;
    let mut sg: u32 = 0;
    let mut sb: u32 = 0;
    let mut sa: u32 = 0;
    let mut k: u32 = 0;
    while k < n
        invariant
            view.wf(),
            sky.wf(),
            sphere.wf(),
            angles@.len() == flags@.len(),
            0 < flags@.len() <= MAX_OUTCOMES,
            px < view.x_res,
            py < view.y_res,
            n == view.aa * view.aa,
            n <= 65536,
            k <= n,
            sr == spec_sample_sum(angles@, flags@, *sky, *sphere, view, px as int, py as int,
                k as int).0,
            sg == spec_sample_sum(angles@, flags@, *sky, *sphere, view, px as int, py as int,
                k as int).1,
            sb == spec_sample_sum(angles@, flags@, *sky, *sphere, view, px as int, py as int,
                k as int).2,
            sa == spec_sample_sum(angles@, flags@, *sky, *sphere, view, px as int, py as int,
                k as int).3,
            sr <= 255 * k,
            sg <= 255 * k,
            sb <= 255 * k,
            sa <= 255 * k,
        decreases n - k,
    {
        let sx = k % view.aa;
        let sy = k / view.aa;
        proof {
            assert(k as int / (view.aa as int) < view.aa) by (nonlinear_arith)
                requires
                    view.aa >= 1,
                    k < view.aa as int * view.aa as int,
            ;
        }
        let c = subsample_color(angles, flags, sky, sphere, view, px, py, sx, sy);
        sr = sr + c.r as u32;
        sg = sg + c.g as u32;
        sb = sb + c.b as u32;
        sa = sa + c.a as u32;
        k = k + 1;
    }
    proof {
        assert(sr as int / (n as int) <= 255 && sg as int / (n as int) <= 255 && sb as int / (
        n as int) <= 255 && sa as int / (n as int) <= 255) by (nonlinear_arith)
            requires
                n >= 1,
                0 <= sr <= 255 * (n as int),
                0 <= sg <= 255 * (n as int),
                0 <= sb <= 255 * (n as int),
                0 <= sa <= 255 * (n as int),
        ;
    }
    Rgba { r: (sr / n) as u8, g: (sg / n) as u8, b: (sb / n) as u8, a: (sa / n) as u8 }
}

/// What a destination position holds: the pixel's supersampled color
/// inside the visible width, zero bytes in the row padding beyond it.
pub open spec fn spec_frame_pixel(
    angles: Seq<u64>,
    flags: Seq<u8>,
    sky: Texture,
    sphere: Texture,
    view: Viewport,
    col: int,
    py: int,
) -> Rgba {
    if col < view.x_res {
        spec_pixel_color(angles, flags, sky, sphere, view, col, py)
    } else {
        Rgba { r: 0, g: 0, b: 0, a: 0 }
    }
}

/// Whether the four bytes of the destination position `(col, py)` of a
/// row-pitched byte buffer hold the color `c`.
pub open spec fn spec_pixel_written(bytes: Seq<u8>, pitch: int, col: int, py: int, c: Rgba) -> bool {
    let base = 4 * (py * pitch + col);
    &&& bytes[base] == c.r
    &&& bytes[base + 1] == c.g
    &&& bytes[base + 2] == c.b
    &&& bytes[base + 3] == c.a
}

/// Largest row pitch the compositor accepts, in pixels.
pub const MAX_PITCH: u32 = 0x8000;

/// Composites one whole frame: one RGBA value per destination position,
/// row by row at the given pitch.
pub fn render_frame(
    angles: &Vec<u64>,
    flags: &Vec<u8>,
    sky: &Texture,
    sphere: &Texture,
    view: Viewport,
    pitch: u32,
) -> (out: Vec<u8>)
    requires
        view.wf(),
        sky.wf(),
        sphere.wf(),
        angles@.len() == flags@.len(),
        0 < flags@.len() <= MAX_OUTCOMES,
        view.x_res <= pitch <= MAX_PITCH,
    ensures
        out@.len() == 4 * (pitch * view.y_res),
        forall|py: int, col: int|
            0 <= py < view.y_res && 0 <= col < pitch ==> spec_pixel_written(
                out@,
                pitch as int,
                col,
                py,
                spec_frame_pixel(angles@, flags@, *sky, *sphere, view, col, py),
            ),
{
    let mut out: Vec<u8> = Vec::new();
    let mut py: u32 = 0;
    proof {
        assert(pitch as int * view.y_res as int <= 0x8000 * 0x4000) by (nonlinear_arith)
            requires
                pitch <= 0x8000,
                view.y_res <= 0x4000,
        ;
    }
    while py < view.y_res
        invariant
            view.wf(),
            sky.wf(),
            sphere.wf(),
            angles@.len() == flags@.len(),
            0 < flags@.len() <= MAX_OUTCOMES,
            view.x_res <= pitch <= MAX_PITCH,
            py <= view.y_res,
            out@.len() == 4 * (py * pitch),
            forall|r: int, c: int|
                0 <= r < py && 0 <= c < pitch ==> spec_pixel_written(
                    out@,
                    pitch as int,
                    c,
                    r,
                    spec_frame_pixel(angles@, flags@, *sky, *sphere, view, c, r),
                ),
        decreases view.y_res - py,
    {
        let mut col: u32 = 0;
        while col < pitch
            invariant
                view.wf(),
                sky.wf(),
                sphere.wf(),
                angles@.len() == flags@.len(),
                0 < flags@.len() <= MAX_OUTCOMES,
                view.x_res <= pitch <= MAX_PITCH,
                py < view.y_res,
                col <= pitch,
                out@.len() == 4 * (py * pitch + col),
                forall|r: int, c: int|
                    0 <= r < py && 0 <= c < pitch ==> spec_pixel_written(
                        out@,
                        pitch as int,
                        c,
                        r,
                        spec_frame_pixel(angles@, flags@, *sky, *sphere, view, c, r),
                    ),
                forall|c: int|
                    0 <= c < col ==> spec_pixel_written(
                        out@,
                        pitch as int,
                        c,
                        py as int,
                        spec_frame_pixel(angles@, flags@, *sky, *sphere, view, c, py as int),
                    ),
            decreases pitch - col,
        {
            proof {
                assert(py * pitch + col + 1 <= 0x8000 * 0x4000) by (nonlinear_arith)
                    requires
                        py < view.y_res,
                        view.y_res <= 0x4000,
                        col < pitch,
                        pitch <= 0x8000,
                        py >= 0,
                        col >= 0,
                ;
            }
            let pc = if col < view.x_res {
                pixel_color(angles, flags, sky, sphere, view, col, py)
            } else {
                Rgba { r: 0, g: 0, b: 0, a: 0 }
            };
            let ghost before = out@;
            out.push(pc.r);
            out.push(pc.g);
            out.push(pc.b);
            out.push(pc.a);
            proof {
                assert forall|r: int, c: int| 0 <= r < py && 0 <= c < pitch implies
                    spec_pixel_written(
                        out@,
                        pitch as int,
                        c,
                        r,
                        spec_frame_pixel(angles@, flags@, *sky, *sphere, view, c, r),
                    ) by {
                    assert(r * pitch + c < py * pitch + col) by (nonlinear_arith)
                        requires
                            0 <= r,
                            r < py,
                            0 <= c < pitch,
                            col >= 0,
                    ;
                    assert(4 * (r * (pitch as int) + c) + 3 < before.len());
                }
                assert forall|c: int| 0 <= c < col + 1 implies spec_pixel_written(
                    out@,
                    pitch as int,
                    c,
                    py as int,
                    spec_frame_pixel(angles@, flags@, *sky, *sphere, view, c, py as int),
                ) by {
                    if c < col {
                        assert(4 * (py * (pitch as int) + c) + 3 < before.len());
                    } else {
                        assert(4 * (py * (pitch as int) + c) == before.len());
                    }
                }
            }
            col = col + 1;
        }
        proof {
            assert((py + 1) * pitch == py * pitch + pitch) by (nonlinear_arith);
        }
        py = py + 1;
    }
    proof {
        assert(4 * ((pitch as int) * (view.y_res as int)) == 4 * ((view.y_res as int) * (
        pitch as int))) by (nonlinear_arith);
    }
    out
}

/// When every sub-sample of a pixel yields one color, the channel sums
/// are that color scaled by the sample count.
proof fn lemma_sample_sum_const(
    angles: Seq<u64>,
    flags: Seq<u8>,
    sky: Texture,
    sphere: Texture,
    view: Viewport,
    px: int,
    py: int,
    k: int,
    c: Rgba,
)
    requires
        view.aa >= 1,
        0 <= k <= (view.aa as int) * (view.aa as int),
        forall|sx: int, sy: int|
            0 <= sx < view.aa && 0 <= sy < view.aa ==> spec_subsample_color(
                angles,
                flags,
                sky,
                sphere,
                view,
                px,
                py,
                sx,
                sy,
            ) == c,
    ensures
        spec_sample_sum(angles, flags, sky, sphere, view, px, py, k) == (
            k * c.r,
            k * c.g,
            k * c.b,
            k * c.a,
        ),
    decreases k,
{
    if k > 0 {
        lemma_sample_sum_const(angles, flags, sky, sphere, view, px, py, k - 1, c);
        let aa = view.aa as int;
        assert(0 <= (k - 1) % aa < aa && 0 <= (k - 1) / aa < aa) by (nonlinear_arith)
            requires
                aa >= 1,
                0 <= k - 1 < aa * aa,
        ;
        assert(spec_subsample_color(angles, flags, sky, sphere, view, px, py, (k - 1) % aa, (k
            - 1) / aa) == c);
        let prev = spec_sample_sum(angles, flags, sky, sphere, view, px, py, k - 1);
        assert(spec_sample_sum(angles, flags, sky, sphere, view, px, py, k) == (
            prev.0 + c.r,
            prev.1 + c.g,
            prev.2 + c.b,
            prev.3 + c.a,
        ));
        assert((k - 1) * c.r + c.r == k * c.r && (k - 1) * c.g + c.g == k * c.g && (k - 1) * c.b
            + c.b == k * c.b && (k - 1) * c.a + c.a == k * c.a) by (nonlinear_arith);
        assert(spec_sample_sum(angles, flags, sky, sphere, view, px, py, k).0 == k * c.r);
    } else {
        assert(k == 0);
        assert(spec_sample_sum(angles, flags, sky, sphere, view, px, py, 0) == (
            0int,
            0int,
            0int,
            0int,
        ));
        assert(0 * c.r == 0 && 0 * c.g == 0 && 0 * c.b == 0 && 0 * c.a == 0)
            by (nonlinear_arith);
    }
}

/// Supersampling does not alter flat regions: over a table whose every
/// entry escapes and a sky texture of one uniform color, a pixel's
/// supersampled color is that color, whatever the antialias factor.
pub proof fn lemma_uniform_sky_pixel(
    angles: Seq<u64>,
    flags: Seq<u8>,
    sky: Texture,
    sphere: Texture,
    view: Viewport,
    px: int,
    py: int,
    c: Rgba,
)
    requires
        view.wf(),
        sky.wf(),
        angles.len() == flags.len(),
        0 < flags.len(),
        forall|i: int| 0 <= i < flags.len() ==> flags[i] == 0,
        sky.uniform(c),
    ensures
        spec_pixel_color(angles, flags, sky, sphere, view, px, py) == c,
{
    let aa = view.aa as int;
    assert forall|sx: int, sy: int| 0 <= sx < view.aa && 0 <= sy < view.aa implies
        spec_subsample_color(angles, flags, sky, sphere, view, px, py, sx, sy) == c by {
        let x = spec_sub_pos(px, sx, aa);
        let y = spec_sub_pos(py, sy, aa);
        let dx = spec_abs_diff(x, view.cx as int);
        let dy = spec_abs_diff(y, view.cy as int);
        let dir = spec_polar_angle(dx, dy, (x < view.cx), (y < view.cy));
        lemma_polar_angle_range(dx, dy, (x < view.cx), (y < view.cy));
        let inc = spec_incidence(view, px, py, sx, sy);
        let idx = spec_bucket_index(
            inc,
            view.min_angle as int,
            view.max_angle as int,
            flags.len() as int,
        );
        crate::table::lemma_bucket_index_range(
            inc,
            view.min_angle as int,
            view.max_angle as int,
            flags.len() as int,
        );
        assert(flags[idx] == 0);
        let wrapped = (angles[idx] as int) % (FX_TWO_PI as int);
        assert(0 <= wrapped < FX_TWO_PI) by (nonlinear_arith)
            requires
                wrapped == (angles[idx] as int) % 411775,
                angles[idx] >= 0,
        ;
        lemma_turn_coord_in_range(dir);
        lemma_turn_coord_in_range(wrapped);
        sky.lemma_sample_uniform(
            c,
            (dir * 65536) / (FX_TWO_PI as int),
            (wrapped * 65536) / (FX_TWO_PI as int),
        );
    }
    assert(aa * aa >= 1) by (nonlinear_arith)
        requires
            aa >= 1,
    ;
    lemma_sample_sum_const(angles, flags, sky, sphere, view, px, py, aa * aa, c);
    assert(((aa * aa) * c.r) / (aa * aa) == c.r && ((aa * aa) * c.g) / (aa * aa) == c.g && ((aa
        * aa) * c.b) / (aa * aa) == c.b && ((aa * aa) * c.a) / (aa * aa) == c.a)
        by (nonlinear_arith)
        requires
            aa * aa >= 1,
    ;
}

/// Rendering a flat region with one antialias factor or another makes no
/// difference: with an all-escape table and a uniform sky, two viewports
/// that differ only in their antialias factor give every pixel the same
/// color.
pub proof fn lemma_supersampling_flat(
    angles: Seq<u64>,
    flags: Seq<u8>,
    sky: Texture,
    sphere: Texture,
    v1: Viewport,
    v2: Viewport,
    px: int,
    py: int,
    c: Rgba,
)
    requires
        v1.wf(),
        v2.wf(),
        sky.wf(),
        angles.len() == flags.len(),
        0 < flags.len(),
        forall|i: int| 0 <= i < flags.len() ==> flags[i] == 0,
        sky.uniform(c),
    ensures
        spec_pixel_color(angles, flags, sky, sphere, v1, px, py) == spec_pixel_color(
            angles,
            flags,
            sky,
            sphere,
            v2,
            px,
            py,
        ),
{
    lemma_uniform_sky_pixel(angles, flags, sky, sphere, v1, px, py, c);
    lemma_uniform_sky_pixel(angles, flags, sky, sphere, v2, px, py, c);
}

} // verus!

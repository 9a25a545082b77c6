//! The resource lifecycle manager.
//!
//! A `Schwarz` value owns everything the pipeline keeps alive for the
//! whole process: the outcome table (generated exactly once, at
//! construction, and immutable afterwards), the sky and event-horizon
//! textures, and the destination frame buffer. Rendering is an explicit
//! two-phase contract: `submit_frame` composites into the owned buffer and
//! marks a frame pending, `await_frame` hands the buffer's bytes out and
//! clears the mark. A new frame cannot be submitted while one is pending,
//! which keeps the single-writer-then-single-reader ordering of the frame
//! buffer visible in the interface; `render` performs the two phases in
//! order, as the interaction loop does each iteration.

use vstd::prelude::*;
use crate::render::{
    render_frame, spec_frame_pixel, spec_pixel_written, Viewport, DEFAULT_ANGLE_SCALE, MAX_AA,
    MAX_CENTER_FX, MAX_PITCH, MAX_RES,
};
use crate::table::{generate_outcomes, spec_bucket_angle, spec_capture_flag, MAX_OUTCOMES};
use crate::physics::spec_ray_result;
use crate::texture::{Rgba, Texture};

verus! {

/// Lowest simulated incidence angle, in fixed-point radians.
pub const TABLE_MIN_ANGLE: u64 = 0;

/// Highest simulated incidence angle: five radians, in fixed-point units.
pub const TABLE_MAX_ANGLE: u64 = 327680;

/// Start radius of every simulated ray: one hundred Schwarzschild radii,
/// in fixed-point units.
pub const TABLE_START_R: u64 = 6553600;

/// Why the pipeline could not be set up.
#[derive(Clone, Copy, Debug, PartialEq, Eq, Structural)]
pub enum SchwarzError {
    /// A frame dimension is zero or beyond the accepted resolution.
    BadResolution,
    /// The antialias factor is zero or beyond the accepted range.
    BadAntialias,
    /// The table size is zero or beyond the accepted range.
    BadTableSize,
}

/// Everything the pipeline needs to keep track of.
pub struct Schwarz {
    /// Result angle per table entry.
    pub angles: Vec<u64>,
    /// Capture flag per table entry: whether the ray falls in or escapes.
    pub angle_result: Vec<u8>,
    /// Sky texture.
    pub skytex: Texture,
    /// Event horizon texture.
    pub spheretex: Texture,
    /// Buffer the compositor renders into.
    pub destbuf: Vec<u8>,
    /// Antialias factor per dimension, so rays per pixel is its square.
    pub aa: u32,
    /// Length of the two table buffers.
    pub num_outcomes: u32,
    /// Frame width, fixed at startup.
    pub x_res: u32,
    /// Frame height, fixed at startup.
    pub y_res: u32,
    /// Whether a composited frame awaits its reader.
    pub frame_pending: bool,
}

impl Schwarz {
    /// Validity: bounded parameters, well-formed textures, and the two
    /// table buffers holding exactly the generated outcomes.
    pub open spec fn wf(self) -> bool {
        &&& 1 <= self.x_res <= MAX_RES
        &&& 1 <= self.y_res <= MAX_RES
        &&& 1 <= self.aa <= MAX_AA
        &&& 0 < self.num_outcomes <= MAX_OUTCOMES
        &&& self.skytex.wf()
        &&& self.spheretex.wf()
        &&& self.angles@.len() == self.num_outcomes
        &&& self.angle_result@.len() == self.num_outcomes
        &&& forall|i: int|
            0 <= i < self.num_outcomes ==> self.angles@[i] == spec_ray_result(
                spec_bucket_angle(
                    i,
                    TABLE_MIN_ANGLE as int,
                    TABLE_MAX_ANGLE as int,
                    self.num_outcomes as int,
                ),
                TABLE_START_R as int,
            )
        &&& forall|i: int|
            0 <= i < self.num_outcomes ==> self.angle_result@[i] == spec_capture_flag(
                spec_bucket_angle(
                    i,
                    TABLE_MIN_ANGLE as int,
                    TABLE_MAX_ANGLE as int,
                    self.num_outcomes as int,
                ),
                TABLE_START_R as int,
            )
    }

    /// The viewport a frame is composited under: the owned resolution and
    /// antialias factor, the given lens center, and the fixed simulated
    /// angle domain.
    pub open spec fn viewport(self, cx: u64, cy: u64) -> Viewport {
        Viewport {
            x_res: self.x_res,
            y_res: self.y_res,
            aa: self.aa,
            cx,
            cy,
            angle_scale: DEFAULT_ANGLE_SCALE,
            min_angle: TABLE_MIN_ANGLE,
            max_angle: TABLE_MAX_ANGLE,
        }
    }

    /// Builds the whole pipeline: validates the configuration, runs the
    /// one-shot outcome generation, and installs the textures, with the
    /// one-texel transparent black placeholder standing in for a missing
    /// event-horizon surface.
    pub fn new(
        aa: u32,
        num_outcomes: u32,
        x_res: u32,
        y_res: u32,
        sky: Texture,
        surface: Option<Texture>,
    ) -> (r: Result<Schwarz, SchwarzError>)
        requires
            sky.wf(),
            match surface {
                Option::Some(t) => t.wf(),
                Option::None => true,
            },
        ensures
            match r {
                Ok(s) => {
                    &&& 1 <= x_res <= MAX_RES
                    &&& 1 <= y_res <= MAX_RES
                    &&& 1 <= aa <= MAX_AA
                    &&& 0 < num_outcomes <= MAX_OUTCOMES
                    &&& s.wf()
                    &&& s.aa == aa
                    &&& s.num_outcomes == num_outcomes
                    &&& s.x_res == x_res
                    &&& s.y_res == y_res
                    &&& s.skytex == sky
                    &&& match surface {
                        Option::Some(t) => s.spheretex == t,
                        Option::None => {
                            &&& s.spheretex.width == 1
                            &&& s.spheretex.height == 1
                            &&& s.spheretex.uniform(Rgba { r: 0, g: 0, b: 0, a: 0 })
                        },
                    }
                    &&& !s.frame_pending
                },
                Err(SchwarzError::BadResolution) => !(1 <= x_res <= MAX_RES && 1 <= y_res
                    <= MAX_RES),
                Err(SchwarzError::BadAntialias) => {
                    &&& 1 <= x_res <= MAX_RES
                    &&& 1 <= y_res <= MAX_RES
                    &&& !(1 <= aa <= MAX_AA)
                },
                Err(SchwarzError::BadTableSize) => {
                    &&& 1 <= x_res <= MAX_RES
                    &&& 1 <= y_res <= MAX_RES
                    &&& 1 <= aa <= MAX_AA
                    &&& !(0 < num_outcomes <= MAX_OUTCOMES)
                },
            },
    {
        if x_res < 1 || x_res > MAX_RES || y_res < 1 || y_res > MAX_RES {
            return Err(SchwarzError::BadResolution);
        }
        if aa < 1 || aa > MAX_AA {
            return Err(SchwarzError::BadAntialias);
        }
        if num_outcomes < 1 || num_outcomes > 0x10000 {
            return Err(SchwarzError::BadTableSize);
        }
        let (angles, flags) = generate_outcomes(
            TABLE_MIN_ANGLE,
            TABLE_MAX_ANGLE,
            num_outcomes as u64,
            TABLE_START_R,
        );
        let sphere = match surface {
            Option::Some(t) => t,
            Option::None => Texture::placeholder(),
        };
        Ok(
            Schwarz {
                angles,
                angle_result: flags,
                skytex: sky,
                spheretex: sphere,
                destbuf: Vec::new(),
                aa,
                num_outcomes,
                x_res,
                y_res,
                frame_pending: false,
            },
        )
    }

    /// Submits one compositor pass: fills the owned frame buffer for the
    /// given lens center and row pitch and marks the frame pending. The
    /// table, the textures and the configuration are untouched.
    pub fn submit_frame(&mut self, pitch: u32, cx: u64, cy: u64)
        requires
            old(self).wf(),
            !old(self).frame_pending,
            old(self).x_res <= pitch <= MAX_PITCH,
            cx <= MAX_CENTER_FX,
            cy <= MAX_CENTER_FX,
        ensures
            final(self).wf(),
            final(self).frame_pending,
            *final(self) == (Schwarz {
                destbuf: final(self).destbuf,
                frame_pending: true,
                ..*old(self)
            }),
            final(self).destbuf@.len() == 4 * (pitch * old(self).y_res),
            forall|py: int, col: int|
                0 <= py < old(self).y_res && 0 <= col < pitch ==> spec_pixel_written(
                    final(self).destbuf@,
                    pitch as int,
                    col,
                    py,
                    spec_frame_pixel(
                        old(self).angles@,
                        old(self).angle_result@,
                        old(self).skytex,
                        old(self).spheretex,
                        old(self).viewport(cx, cy),
                        col,
                        py,
                    ),
                ),
    {
        let v = Viewport {
            x_res: self.x_res,
            y_res: self.y_res,
            aa: self.aa,
            cx,
            cy,
            angle_scale: DEFAULT_ANGLE_SCALE,
            min_angle: TABLE_MIN_ANGLE,
            max_angle: TABLE_MAX_ANGLE,
        };
        let frame = render_frame(
            &self.angles,
            &self.angle_result,
            &self.skytex,
            &self.spheretex,
            v,
            pitch,
        );
        self.destbuf = frame;
        self.frame_pending = true;
    }

    /// Awaits the pending frame: copies the composited bytes out to the
    /// presentation buffer and clears the pending mark, after which the
    /// next frame may be submitted.
    pub fn await_frame(&mut self, dest: &mut Vec<u8>)
        requires
            old(self).frame_pending,
        ensures
            *final(self) == (Schwarz { frame_pending: false, ..*old(self) }),
            final(dest)@ == old(self).destbuf@,
    {
        let mut out: Vec<u8> = Vec::new();
        let mut i: usize = 0;
        while i < self.destbuf.len()
            invariant
                i <= self.destbuf.len(),
                out@ =~= self.destbuf@.take(i as int),
            decreases self.destbuf.len() - i,
        {
            out.push(self.destbuf[i]);
            i = i + 1;
        }
        proof {
            assert(out@ =~= self.destbuf@);
        }
        *dest = out;
        self.frame_pending = false;
    }

    /// Renders one frame: submits a compositor pass for the given lens
    /// center and reads the result into the presentation buffer, the two
    /// phases in their required order.
    pub fn render(&mut self, dest: &mut Vec<u8>, pitch: u32, cx: u64, cy: u64)
        requires
            old(self).wf(),
            !old(self).frame_pending,
            old(self).x_res <= pitch <= MAX_PITCH,
            cx <= MAX_CENTER_FX,
            cy <= MAX_CENTER_FX,
        ensures
            final(self).wf(),
            !final(self).frame_pending,
            final(self).angles == old(self).angles,
            final(self).angle_result == old(self).angle_result,
            final(self).skytex == old(self).skytex,
            final(self).spheretex == old(self).spheretex,
            final(self).aa == old(self).aa,
            final(self).num_outcomes == old(self).num_outcomes,
            final(self).x_res == old(self).x_res,
            final(self).y_res == old(self).y_res,
            final(dest)@.len() == 4 * (pitch * old(self).y_res),
            forall|py: int, col: int|
                0 <= py < old(self).y_res && 0 <= col < pitch ==> spec_pixel_written(
                    final(dest)@,
                    pitch as int,
                    col,
                    py,
                    spec_frame_pixel(
                        old(self).angles@,
                        old(self).angle_result@,
                        old(self).skytex,
                        old(self).spheretex,
                        old(self).viewport(cx, cy),
                        col,
                        py,
                    ),
                ),
    {
        self.submit_frame(pitch, cx, cy);
        self.await_frame(dest);
    }
}

} // verus!

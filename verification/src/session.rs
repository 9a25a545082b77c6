//! The real-time interaction loop's state machine.
//!
//! The loop has two states, running and terminating. Each iteration first
//! smooths the camera center toward the raw pointer position and advances
//! the frame counter, then renders, then drains pending input events: a
//! quit signal or the escape key terminates, pointer motion updates the
//! raw position for the next iteration, and everything else is ignored.
//! The loop body that performs presentation and timing lives outside the
//! library; the decisions live here.

use vstd::prelude::*;
use crate::camera::{smooth_step, spec_smooth, MAX_COORD_FX};

verus! {

/// Number of frames between two frame-rate reports.
pub const FPS_REPORT_PERIOD: u32 = 100;

/// Largest pointer coordinate carried into the session, in pixels.
pub const MAX_POINTER: u32 = 0x4000;

/// One input event, as the interaction loop sees it.
#[derive(Clone, Copy, Debug, PartialEq, Eq, Structural)]
pub enum InputEvent {
    /// The window was asked to close.
    Quit,
    /// The escape key went down.
    EscapeKey,
    /// Any other key went down.
    OtherKey,
    /// The pointer moved to a new position, in pixels.
    MouseMotion { x: u32, y: u32 },
    /// Any other event.
    Other,
}

/// The interaction loop's state: whether it keeps running, the smoothed
/// (effective) camera center, the raw pointer position, and the frame
/// counter driving periodic frame-rate reports.
pub struct Session {
    pub running: bool,
    pub fps_enabled: bool,
    pub eff_x: u64,
    pub eff_y: u64,
    pub raw_x: u64,
    pub raw_y: u64,
    pub frames: u32,
}

impl Session {
    /// Validity: coordinates stay on screen scale and the frame counter
    /// stays below the reporting period.
    pub open spec fn wf(self) -> bool {
        &&& self.eff_x <= MAX_COORD_FX
        &&& self.eff_y <= MAX_COORD_FX
        &&& self.raw_x <= MAX_COORD_FX
        &&& self.raw_y <= MAX_COORD_FX
        &&& self.frames < FPS_REPORT_PERIOD
    }

    /// The state an event maps the session to: quit and escape terminate,
    /// pointer motion (clamped to the accepted range) replaces the raw
    /// position, anything else changes nothing.
    pub open spec fn spec_apply_event(self, e: InputEvent) -> Session {
        match e {
            InputEvent::Quit => Session { running: false, ..self },
            InputEvent::EscapeKey => Session { running: false, ..self },
            InputEvent::MouseMotion { x, y } => Session {
                raw_x: (((if x > MAX_POINTER {
                    MAX_POINTER as int
                } else {
                    x as int
                }) * 65536) as u64),
                raw_y: (((if y > MAX_POINTER {
                    MAX_POINTER as int
                } else {
                    y as int
                }) * 65536) as u64),
                ..self
            },
            InputEvent::OtherKey => self,
            InputEvent::Other => self,
        }
    }

    /// A fresh session: running, camera centered on the screen middle,
    /// raw position on the effective position, counter at zero.
    pub fn new(x_res: u32, y_res: u32, fps_enabled: bool) -> (s: Session)
        requires
            x_res <= 0x4000,
            y_res <= 0x4000,
        ensures
            s.wf(),
            s.running,
            s.fps_enabled == fps_enabled,
            s.frames == 0,
            s.eff_x == x_res * 65536 / 2,
            s.eff_y == y_res * 65536 / 2,
            s.raw_x == s.eff_x,
            s.raw_y == s.eff_y,
    {
        let cx = (x_res as u64) * 65536 / 2;
        let cy = (y_res as u64) * 65536 / 2;
        Session {
            running: true,
            fps_enabled,
            eff_x: cx,
            eff_y: cy,
            raw_x: cx,
            raw_y: cy,
            frames: 0,
        }
    }

    /// Applies one drained input event to the session.
    pub fn apply_event(&mut self, e: InputEvent)
        requires
            old(self).wf(),
        ensures
            *final(self) == old(self).spec_apply_event(e),
            final(self).wf(),
    {
        match e {
            InputEvent::Quit => {
                self.running = false;
            },
            InputEvent::EscapeKey => {
                self.running = false;
            },
            InputEvent::MouseMotion { x, y } => {
                let px = if x > MAX_POINTER {
                    MAX_POINTER
                } else {
                    x
                };
                let py = if y > MAX_POINTER {
                    MAX_POINTER
                } else {
                    y
                };
                self.raw_x = (px as u64) * 65536;
                self.raw_y = (py as u64) * 65536;
            },
            InputEvent::OtherKey => {
            },
            InputEvent::Other => {
            },
        }
    }

    /// Starts one loop iteration: smooths the effective camera center one
    /// step toward the raw position and advances the frame counter. The
    /// result says whether this is a frame on which the measured frame
    /// rate is to be reported (an observability side effect performed
    /// outside the library).
    pub fn begin_frame(&mut self) -> (report: bool)
        requires
            old(self).wf(),
        ensures
            final(self).wf(),
            final(self).eff_x == spec_smooth(old(self).eff_x as int, old(self).raw_x as int),
            final(self).eff_y == spec_smooth(old(self).eff_y as int, old(self).raw_y as int),
            final(self).raw_x == old(self).raw_x,
            final(self).raw_y == old(self).raw_y,
            final(self).running == old(self).running,
            final(self).fps_enabled == old(self).fps_enabled,
            report == (old(self).fps_enabled && old(self).frames + 1 == FPS_REPORT_PERIOD),
            final(self).frames == if old(self).frames + 1 == FPS_REPORT_PERIOD {
                0u32
            } else {
                (old(self).frames + 1) as u32
            },
    {
        self.eff_x = smooth_step(self.eff_x, self.raw_x);
        self.eff_y = smooth_step(self.eff_y, self.raw_y);
        let next = self.frames + 1;
        let report = self.fps_enabled && next == FPS_REPORT_PERIOD;
        self.frames = if next == FPS_REPORT_PERIOD {
            0
        } else {
            next
        };
        report
    }
}

} // verus!

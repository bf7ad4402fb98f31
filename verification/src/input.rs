//! Meaning of the movement keys for one frame.
//!
//! The caller polls the keyboard and scales each [`Push`] by the distance
//! the camera covers in the frame; which way each axis is pushed, and what
//! happens when two opposite keys are held together, is decided here.

use vstd::prelude::*;

verus! {

/// Which way one axis is pushed during a frame.
#[derive(Clone, Copy, Debug, PartialEq, Eq, Structural)]
pub enum Push {
    /// Towards smaller values of the axis.
    Negative,
    /// Not at all.
    Rest,
    /// Towards larger values of the axis.
    Positive,
}

/// The logical actions and whether each is asked for in this frame.
///
/// The ten movement actions are held keys; `toggle_normals` is a key that
/// went down in this frame.
#[derive(Clone, Copy, Debug, PartialEq, Eq, Structural)]
pub struct Controls {
    pub forward: bool,
    pub back: bool,
    pub left: bool,
    pub right: bool,
    pub up: bool,
    pub down: bool,
    pub yaw_left: bool,
    pub yaw_right: bool,
    pub pitch_up: bool,
    pub pitch_down: bool,
    pub toggle_normals: bool,
}

/// The pushes on the three translation axes and the two rotation angles.
#[derive(Clone, Copy, Debug, PartialEq, Eq, Structural)]
pub struct Motion {
    pub x: Push,
    pub y: Push,
    pub z: Push,
    pub yaw: Push,
    pub pitch: Push,
}

/// What one frame's input amounts to.
#[derive(Clone, Copy, Debug, PartialEq, Eq, Structural)]
pub struct Step {
    pub motion: Motion,
    pub show_normals: bool,
}

/// The push on an axis with one key for each way. When both keys are held
/// the `stronger` one decides.
pub open spec fn resolve(weaker: bool, weaker_push: Push, stronger: bool, stronger_push: Push) -> Push {
    if stronger {
        stronger_push
    } else if weaker {
        weaker_push
    } else {
        Push::Rest
    }
}

impl Controls {
    /// No action asked for.
    pub open spec fn idle_spec() -> Controls {
        Controls {
            forward: false,
            back: false,
            left: false,
            right: false,
            up: false,
            down: false,
            yaw_left: false,
            yaw_right: false,
            pitch_up: false,
            pitch_down: false,
            toggle_normals: false,
        }
    }

    /// The motion these controls ask for.
    ///
    /// Forward is towards negative `z`. Of two opposite keys held together,
    /// `back`, `left`, `down`, `yaw_right` and `pitch_up` decide.
    pub open spec fn motion_spec(self) -> Motion {
        Motion {
            x: resolve(self.right, Push::Positive, self.left, Push::Negative),
            y: resolve(self.up, Push::Positive, self.down, Push::Negative),
            z: resolve(self.forward, Push::Negative, self.back, Push::Positive),
            yaw: resolve(self.yaw_left, Push::Negative, self.yaw_right, Push::Positive),
            pitch: resolve(self.pitch_down, Push::Negative, self.pitch_up, Push::Positive),
        }
    }

    /// What the frame's input amounts to, given whether normals are shown now.
    pub open spec fn step_spec(self, show_normals: bool) -> Step {
        Step { motion: self.motion_spec(), show_normals: show_normals != self.toggle_normals }
    }

    /// Controls with no action asked for.
    pub fn idle() -> (c: Controls)
        ensures
            c == Controls::idle_spec(),
    {
        Controls {
            forward: false,
            back: false,
            left: false,
            right: false,
            up: false,
            down: false,
            yaw_left: false,
            yaw_right: false,
            pitch_up: false,
            pitch_down: false,
            toggle_normals: false,
        }
    }

    /// The motion these controls ask for.
    pub fn motion(&self) -> (m: Motion)
        ensures
            m == self.motion_spec(),
    {
        let mut m = Motion {
            x: Push::Rest,
            y: Push::Rest,
            z: Push::Rest,
            yaw: Push::Rest,
            pitch: Push::Rest,
        };
        if self.forward {
            m.z = Push::Negative;
        }
        if self.back {
            m.z = Push::Positive;
        }
        if self.right {
            m.x = Push::Positive;
        }
        if self.left {
            m.x = Push::Negative;
        }
        if self.up {
            m.y = Push::Positive;
        }
        if self.down {
            m.y = Push::Negative;
        }
        if self.yaw_left {
            m.yaw = Push::Negative;
        }
        if self.yaw_right {
            m.yaw = Push::Positive;
        }
        if self.pitch_down {
            m.pitch = Push::Negative;
        }
        if self.pitch_up {
            m.pitch = Push::Positive;
        }
        m
    }

    /// One frame of input: the motion asked for, and whether normals are
    /// shown from this frame on.
    pub fn step(&self, show_normals: bool) -> (s: Step)
        ensures
            s == self.step_spec(show_normals),
    {
        let shown = if self.toggle_normals {
            !show_normals
        } else {
            show_normals
        };
        Step { motion: self.motion(), show_normals: shown }
    }
}

} // verus!

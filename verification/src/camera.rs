//! Orbit camera controller: a camera that looks at a focus point from a
//! distance `radius` in the direction given by `yaw` and `pitch`.
//!
//! Pointer drags rotate yaw and pitch; a separate gesture pans the focus; a
//! scroll wheel scales the radius multiplicatively, clamped to a positive
//! floor so the camera can never invert through its focus point. When the
//! pitch is beyond a pole (straight up or straight down) the camera is upside
//! down and the yaw delta is inverted, so that dragging keeps the same
//! perceived direction on both sides of the pole. Turning the resulting
//! parameters into a world transform needs trigonometry and is left to the
//! rendering layer; every decision made here is exact fixed-point arithmetic.

use vstd::prelude::*;
use vstd::math::abs;
use crate::spin::HALF_PI_ANGLE;
use crate::fixed::sat_add;
use crate::fixed::sat_add_i64;

verus! {

/// Half a turn (pi radians) in fixed-point angle units.
pub const PI_ANGLE: i64 = 3_141_592;

/// A full turn in fixed-point angle units.
pub const TWO_PI_ANGLE: i64 = 6_283_184;

/// The smallest radius zooming in can reach, in fixed-point world units
/// (1000 units stand for one world unit). Always positive.
pub const MIN_RADIUS: u64 = 50;

/// The largest radius zooming out can reach.
pub const MAX_RADIUS: u64 = 1_000_000_000_000;

/// Numerator and denominator of the per-click zoom factor: one zoom-in click
/// scales the radius by 4/5, one zoom-out click by 5/4.
pub const ZOOM_NUM: u64 = 4;

/// See `ZOOM_NUM`.
pub const ZOOM_DEN: u64 = 5;

/// An angle brought back into the half-open range (-pi, pi], assuming it
/// started no further than one turn outside it.
pub open spec fn wrap_angle(a: int) -> int {
    if a > PI_ANGLE {
        a - TWO_PI_ANGLE
    } else if a <= -PI_ANGLE {
        a + TWO_PI_ANGLE
    } else {
        a
    }
}

/// The orbit camera's whole state. Angles are fixed-point radians, the focus
/// is a fixed-point world point, the radius a fixed-point world distance.
pub struct OrbitCamera {
    pub focus_x: i64,
    pub focus_y: i64,
    pub focus_z: i64,
    pub radius: u64,
    pub yaw: i64,
    pub pitch: i64,
    pub upside_down: bool,
}

impl OrbitCamera {
    /// Well-formedness: the radius stays inside its positive clamp range,
    /// both angles are wrapped, and `upside_down` is exactly the statement
    /// that the pitch is beyond a pole.
    pub open spec fn wf(self) -> bool {
        &&& MIN_RADIUS <= self.radius <= MAX_RADIUS
        &&& -PI_ANGLE < self.yaw <= PI_ANGLE
        &&& -PI_ANGLE < self.pitch <= PI_ANGLE
        &&& self.upside_down == (abs(self.pitch as int) > HALF_PI_ANGLE)
    }

    /// The yaw delta a rotation gesture actually applies: inverted while the
    /// camera is upside down, so the perceived direction never flips.
    pub open spec fn applied_yaw_delta(self, dx: int) -> int {
        if self.upside_down {
            -dx
        } else {
            dx
        }
    }

    /// The camera after a rotation gesture of device delta (dx, dy).
    pub open spec fn rotate_model(self, dx: int, dy: int) -> OrbitCamera {
        let yaw2 = wrap_angle(self.yaw + self.applied_yaw_delta(dx));
        let pitch2 = wrap_angle(self.pitch + dy);
        OrbitCamera {
            yaw: yaw2 as i64,
            pitch: pitch2 as i64,
            upside_down: abs(pitch2) > HALF_PI_ANGLE,
            ..self
        }
    }

    /// The camera after a pan gesture: the focus translated by a world-space
    /// delta (already projected into the camera plane by the input layer).
    pub open spec fn pan_model(self, wx: int, wy: int, wz: int) -> OrbitCamera {
        OrbitCamera {
            focus_x: sat_add(self.focus_x as int, wx) as i64,
            focus_y: sat_add(self.focus_y as int, wy) as i64,
            focus_z: sat_add(self.focus_z as int, wz) as i64,
            ..self
        }
    }

    /// The camera after one zoom-in click: radius scaled by 4/5 and clamped
    /// at the positive floor.
    pub open spec fn zoom_in_model(self) -> OrbitCamera {
        let shrunk = self.radius * ZOOM_NUM / (ZOOM_DEN as int);
        OrbitCamera {
            radius: (if shrunk < MIN_RADIUS {
                MIN_RADIUS as int
            } else {
                shrunk
            }) as u64,
            ..self
        }
    }

    /// The camera after one zoom-out click: radius scaled by 5/4 and capped.
    pub open spec fn zoom_out_model(self) -> OrbitCamera {
        let grown = self.radius * ZOOM_DEN / (ZOOM_NUM as int);
        OrbitCamera {
            radius: (if grown > MAX_RADIUS {
                MAX_RADIUS as int
            } else {
                grown
            }) as u64,
            ..self
        }
    }

    /// The camera the session starts with: looking at the origin from a
    /// short distance, slightly from above, right side up.
    pub fn startup() -> (c: OrbitCamera)
        ensures
            c.focus_x == 0 && c.focus_y == 0 && c.focus_z == 0,
            c.radius == 5_220,
            c.yaw == 0,
            c.pitch == 291_457,
            !c.upside_down,
            c.wf(),
    {
        OrbitCamera {
            focus_x: 0,
            focus_y: 0,
            focus_z: 0,
            radius: 5_220,
            yaw: 0,
            pitch: 291_457,
            upside_down: false,
        }
    }

    /// One rotation gesture. The stored `upside_down` decides the yaw
    /// inversion, then both angles advance and wrap, then `upside_down` is
    /// recomputed from the new pitch.
    pub fn rotate(&mut self, dx: i64, dy: i64)
        requires
            old(self).wf(),
            -PI_ANGLE <= dx <= PI_ANGLE,
            -PI_ANGLE <= dy <= PI_ANGLE,
        ensures
            *final(self) == old(self).rotate_model(dx as int, dy as int),
            final(self).wf(),
            final(self).focus_x == old(self).focus_x,
            final(self).focus_y == old(self).focus_y,
            final(self).focus_z == old(self).focus_z,
            final(self).radius == old(self).radius,
    {
        let applied: i64 = if self.upside_down {
            -dx
        } else {
            dx
        };
        let raw_yaw: i64 = self.yaw + applied;
        self.yaw = if raw_yaw > PI_ANGLE {
            raw_yaw - TWO_PI_ANGLE
        } else if raw_yaw <= -PI_ANGLE {
            raw_yaw + TWO_PI_ANGLE
        } else {
            raw_yaw
        };
        let raw_pitch: i64 = self.pitch + dy;
        self.pitch = if raw_pitch > PI_ANGLE {
            raw_pitch - TWO_PI_ANGLE
        } else if raw_pitch <= -PI_ANGLE {
            raw_pitch + TWO_PI_ANGLE
        } else {
            raw_pitch
        };
        self.upside_down = self.pitch > HALF_PI_ANGLE || self.pitch < -HALF_PI_ANGLE;
    }

    /// One pan gesture: translate the focus by a world-space delta.
    pub fn pan(&mut self, wx: i64, wy: i64, wz: i64)
        requires
            old(self).wf(),
        ensures
            *final(self) == old(self).pan_model(wx as int, wy as int, wz as int),
            final(self).wf(),
            final(self).radius == old(self).radius,
    {
        self.focus_x = sat_add_i64(self.focus_x, wx);
        self.focus_y = sat_add_i64(self.focus_y, wy);
        self.focus_z = sat_add_i64(self.focus_z, wz);
    }

    /// One zoom-in scroll click. The radius shrinks multiplicatively but is
    /// clamped at `MIN_RADIUS`, so it never reaches zero or inverts.
    pub fn zoom_in(&mut self)
        requires
            old(self).wf(),
        ensures
            *final(self) == old(self).zoom_in_model(),
            final(self).wf(),
            final(self).radius >= MIN_RADIUS,
    {
        let shrunk: u64 = self.radius * ZOOM_NUM / ZOOM_DEN;
        self.radius = if shrunk < MIN_RADIUS {
            MIN_RADIUS
        } else {
            shrunk
        };
    }

    /// One zoom-out scroll click, capped at `MAX_RADIUS`.
    pub fn zoom_out(&mut self)
        requires
            old(self).wf(),
        ensures
            *final(self) == old(self).zoom_out_model(),
            final(self).wf(),
    {
        let grown: u64 = self.radius * ZOOM_DEN / ZOOM_NUM;
        self.radius = if grown > MAX_RADIUS {
            MAX_RADIUS
        } else {
            grown
        };
    }
}

/// Orbit pole consistency: take any two well-formed camera states, one with
/// its pitch within the poles and one beyond a pole. A rotation gesture in a
/// fixed device direction applies yaw deltas of exactly opposite sign to the
/// two states, which is what keeps the perceived drag direction the same on
/// both sides of a pole.
pub proof fn lemma_orbit_pole_consistency(below: OrbitCamera, beyond: OrbitCamera, dx: int)
    requires
        below.wf(),
        beyond.wf(),
        abs(below.pitch as int) <= HALF_PI_ANGLE,
        abs(beyond.pitch as int) > HALF_PI_ANGLE,
    ensures
        below.applied_yaw_delta(dx) == dx,
        beyond.applied_yaw_delta(dx) == -dx,
        below.applied_yaw_delta(dx) == -beyond.applied_yaw_delta(dx),
{
}

/// Camera radius floor: however many zoom-in clicks follow each other, the
/// radius of a well-formed camera never leaves the positive clamp range.
pub proof fn lemma_camera_radius_floor(c: OrbitCamera)
    requires
        c.wf(),
    ensures
        c.zoom_in_model().wf(),
        c.zoom_in_model().radius >= MIN_RADIUS,
        c.zoom_in_model().radius > 0,
{
}

} // verus!

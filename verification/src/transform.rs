//! The plain-value transform the core exposes to the rendering host.
//!
//! The host owns its own transform representation; the core reads and writes
//! only what it computes: a translation point, two accumulated spin angles
//! (about the first and second axis, in that order), and a uniform scale.
//! All fields are fixed-point micro-units (see `fx::SCALE`).

use vstd::prelude::*;
use crate::trig::TWO_PI_FX;

verus! {

/// A 3D point or vector in fixed-point micro-units.
#[derive(Clone, Copy, Debug, PartialEq, Eq, Structural)]
pub struct Vec3Fx {
    pub x: i64,
    pub y: i64,
    pub z: i64,
}

/// A pair of angles in micro-radians: the spin rates about two perpendicular
/// axes.
#[derive(Clone, Copy, Debug, PartialEq, Eq, Structural)]
pub struct Vec2Fx {
    pub x: i64,
    pub y: i64,
}

/// The mutable sidecar the host attaches to each live object: where it is,
/// how far it has spun about each axis, and how large it is drawn.
#[derive(Clone, Copy, Debug, PartialEq, Eq, Structural)]
pub struct Transform {
    /// World position, micro-units.
    pub translation: Vec3Fx,
    /// Accumulated rotation about the first axis, micro-radians in
    /// `[0, TWO_PI_FX)`.
    pub rot_x: i64,
    /// Accumulated rotation about the second axis, micro-radians in
    /// `[0, TWO_PI_FX)`.
    pub rot_y: i64,
    /// Uniform scale, micro-units per unit of model size.
    pub scale: i64,
}

impl Vec3Fx {
    /// The origin.
    pub fn zero() -> (v: Vec3Fx)
        ensures
            v == (Vec3Fx { x: 0, y: 0, z: 0 }),
    {
        Vec3Fx { x: 0, y: 0, z: 0 }
    }
}

impl Transform {
    /// Both spin angles are reduced turns.
    pub open spec fn wf(self) -> bool {
        &&& 0 <= self.rot_x < TWO_PI_FX
        &&& 0 <= self.rot_y < TWO_PI_FX
    }

    /// A transform at `translation` with uniform scale `scale` and no spin.
    pub fn from_xyz_scale(translation: Vec3Fx, scale: i64) -> (t: Transform)
        ensures
            t == (Transform { translation, rot_x: 0, rot_y: 0, scale }),
            t.wf(),
    {
        Transform { translation, rot_x: 0, rot_y: 0, scale }
    }
}

} // verus!

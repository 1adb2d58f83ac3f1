//! The asteroid kind: a small tumbling rock drifting toward the camera.

use vstd::prelude::*;
use super::state::{
    after_location, location_after, orientation_after, projected_state, initial_transform,
    ObjectState, DT_MAX, FOV_MAX,
};
use super::{SpaceThingTrait, SpawnRanges};
use crate::transform::Transform;
use crate::SpaceError;

verus! {

/// Smallest asteroid diameter drawn, in micro-units (0.10).
pub const ASTEROID_SIZE_LO: i64 = 100_000;

/// One past the largest asteroid diameter drawn (0.24).
pub const ASTEROID_SIZE_HI: i64 = 240_000;

/// Smallest raw asteroid speed drawn (0.165).
pub const ASTEROID_SPEED_LO: i64 = 165_000;

/// One past the largest raw asteroid speed drawn (0.250).
pub const ASTEROID_SPEED_HI: i64 = 250_000;

/// Smallest spin multiplier drawn (0).
pub const ASTEROID_SPIN_LO: i64 = 0;

/// One past the largest spin multiplier drawn (0.25).
pub const ASTEROID_SPIN_HI: i64 = 250_000;

/// A drifting asteroid.
#[derive(Clone, Copy, Debug)]
pub struct Asteroid {
    /// Its randomized parameters and derived trajectory constants.
    pub state: ObjectState,
}

impl Asteroid {
    /// The asteroid kind's documented parameter ranges.
    pub fn ranges() -> (r: SpawnRanges)
        ensures
            r == (SpawnRanges {
                size_lo: ASTEROID_SIZE_LO,
                size_hi: ASTEROID_SIZE_HI,
                speed_lo: ASTEROID_SPEED_LO,
                speed_hi: ASTEROID_SPEED_HI,
                spin_lo: ASTEROID_SPIN_LO,
                spin_hi: ASTEROID_SPIN_HI,
            }),
            r.ordered(),
            r.bounded(),
    {
        SpawnRanges {
            size_lo: ASTEROID_SIZE_LO,
            size_hi: ASTEROID_SIZE_HI,
            speed_lo: ASTEROID_SPEED_LO,
            speed_hi: ASTEROID_SPEED_HI,
            spin_lo: ASTEROID_SPIN_LO,
            spin_hi: ASTEROID_SPIN_HI,
        }
    }

    /// Wrap an already-drawn variant state as an asteroid.
    pub fn from_state(state: ObjectState) -> (a: Asteroid)
        ensures
            a.state == state,
    {
        Asteroid { state }
    }
}

impl Default for Asteroid {
    /// A freshly drawn asteroid: size in `[0.10, 0.24)`, raw speed in
    /// `[0.165, 0.250)`, spin multiplier in `[0, 0.25)`, all angles in
    /// `[0, 2 pi)`.
    fn default() -> (a: Asteroid)
        ensures
            a.state.wf_descriptor(),
            ASTEROID_SIZE_LO <= a.state.size < ASTEROID_SIZE_HI,
            ASTEROID_SPEED_LO <= a.state.speed < ASTEROID_SPEED_HI,
            ASTEROID_SPIN_LO <= a.state.rotation_speed < ASTEROID_SPIN_HI,
    {
        let ranges = Asteroid::ranges();
        Asteroid { state: ranges.draw() }
    }
}

impl SpaceThingTrait for Asteroid {
    open spec fn st(&self) -> ObjectState {
        self.state
    }

    open spec fn spec_should_despawn(&self) -> bool {
        false
    }

    fn update_orientation(&mut self, dt: u64, orientation: &mut Transform) {
        self.state.update_orientation(dt, orientation);
    }

    fn update_location(&mut self, dt: u64, location: &mut Transform) {
        self.state.update_location(dt, location);
    }

    fn initialize_transform(&mut self, fov: i64) -> (r: Result<Transform, SpaceError>) {
        self.state.initialize_transform(fov)
    }

    fn should_despawn(&self) -> (r: bool) {
        false
    }
}

} // verus!

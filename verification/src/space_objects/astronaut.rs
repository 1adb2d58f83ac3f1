//! The astronaut kind: a lone drifting figure. Its drift and spin bounds are
//! the same documented set the asteroid uses; only the kind tag (and the
//! mesh the host attaches) differs.

use vstd::prelude::*;
use super::state::{
    after_location, location_after, orientation_after, projected_state, initial_transform,
    ObjectState, DT_MAX, FOV_MAX,
};
use super::{SpaceThingTrait, SpawnRanges};
use crate::transform::Transform;
use crate::SpaceError;

verus! {

/// Smallest astronaut diameter drawn, in micro-units (0.10).
pub const ASTRONAUT_SIZE_LO: i64 = 100_000;

/// One past the largest astronaut diameter drawn (0.24).
pub const ASTRONAUT_SIZE_HI: i64 = 240_000;

/// Smallest raw astronaut speed drawn (0.165).
pub const ASTRONAUT_SPEED_LO: i64 = 165_000;

/// One past the largest raw astronaut speed drawn (0.250).
pub const ASTRONAUT_SPEED_HI: i64 = 250_000;

/// Smallest spin multiplier drawn (0).
pub const ASTRONAUT_SPIN_LO: i64 = 0;

/// One past the largest spin multiplier drawn (0.25).
pub const ASTRONAUT_SPIN_HI: i64 = 250_000;

/// A drifting astronaut.
#[derive(Clone, Copy, Debug)]
pub struct Astronaut {
    /// Its randomized parameters and derived trajectory constants.
    pub state: ObjectState,
}

impl Astronaut {
    /// The astronaut kind's documented parameter ranges.
    pub fn ranges() -> (r: SpawnRanges)
        ensures
            r == (SpawnRanges {
                size_lo: ASTRONAUT_SIZE_LO,
                size_hi: ASTRONAUT_SIZE_HI,
                speed_lo: ASTRONAUT_SPEED_LO,
                speed_hi: ASTRONAUT_SPEED_HI,
                spin_lo: ASTRONAUT_SPIN_LO,
                spin_hi: ASTRONAUT_SPIN_HI,
            }),
            r.ordered(),
            r.bounded(),
    {
        SpawnRanges {
            size_lo: ASTRONAUT_SIZE_LO,
            size_hi: ASTRONAUT_SIZE_HI,
            speed_lo: ASTRONAUT_SPEED_LO,
            speed_hi: ASTRONAUT_SPEED_HI,
            spin_lo: ASTRONAUT_SPIN_LO,
            spin_hi: ASTRONAUT_SPIN_HI,
        }
    }

    /// Wrap an already-drawn variant state as an astronaut.
    pub fn from_state(state: ObjectState) -> (a: Astronaut)
        ensures
            a.state == state,
    {
        Astronaut { state }
    }
}

impl Default for Astronaut {
    /// A freshly drawn astronaut: size in `[0.10, 0.24)`, raw speed in
    /// `[0.165, 0.250)`, spin multiplier in `[0, 0.25)`, all angles in
    /// `[0, 2 pi)`.
    fn default() -> (a: Astronaut)
        ensures
            a.state.wf_descriptor(),
            ASTRONAUT_SIZE_LO <= a.state.size < ASTRONAUT_SIZE_HI,
            ASTRONAUT_SPEED_LO <= a.state.speed < ASTRONAUT_SPEED_HI,
            ASTRONAUT_SPIN_LO <= a.state.rotation_speed < ASTRONAUT_SPIN_HI,
    {
        let ranges = Astronaut::ranges();
        Astronaut { state: ranges.draw() }
    }
}

impl SpaceThingTrait for Astronaut {
    open spec fn st(&self) -> ObjectState {
        self.state
    }

    open spec fn spec_should_despawn(&self) -> bool {
        false
    }

    fn update_orientation(&mut self, dt: u64, orientation: &mut Transform) {
        self.state.update_orientation(dt, orientation);
    }

    fn update_location(&mut self, dt: u64, location: &mut Transform) {
        self.state.update_location(dt, location);
    }

    fn initialize_transform(&mut self, fov: i64) -> (r: Result<Transform, SpaceError>) {
        self.state.initialize_transform(fov)
    }

    fn should_despawn(&self) -> (r: bool) {
        false
    }
}

} // verus!

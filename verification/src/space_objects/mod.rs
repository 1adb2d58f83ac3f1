//! The polymorphic object-variant model.
//!
//! A closed set of kinds shares one capability contract: orientation update,
//! location update, one-time projection setup, and a despawn override.
//! Dispatch is a tagged union with exhaustive matching, so every operation
//! provably handles every kind; adding a kind means extending the enum and
//! every match site, checked at compile time.

pub mod asteroid;
pub mod astronaut;
pub mod state;

use vstd::prelude::*;
use crate::randomness::{draw_range, fresh_rng};
use crate::transform::Transform;
use crate::trig::TWO_PI_FX;
use crate::SpaceError;
use asteroid::Asteroid;
use astronaut::Astronaut;
use state::{
    after_location, location_after, orientation_after, projected_state, initial_transform,
    ObjectState, DT_MAX, FOV_MAX, RAW_SPEED_CAP, ROT_SPEED_CAP, SIZE_CAP,
};

verus! {

/// The near-plane threshold: an object whose translation passes this depth
/// is out of view, whatever the field of view it was spawned with.
pub const DESPAWN_Z_FX: i64 = 8_000_000;

/// The bounded uniform ranges a kind draws its parameters from. Angles are
/// always drawn from `[0, TWO_PI_FX)` and need no configuration.
#[derive(Clone, Copy, Debug, PartialEq, Eq, Structural)]
pub struct SpawnRanges {
    /// Characteristic size, `[size_lo, size_hi)`.
    pub size_lo: i64,
    pub size_hi: i64,
    /// Raw speed, `[speed_lo, speed_hi)`.
    pub speed_lo: i64,
    pub speed_hi: i64,
    /// Spin-rate multiplier, `[spin_lo, spin_hi)`.
    pub spin_lo: i64,
    pub spin_hi: i64,
}

impl SpawnRanges {
    /// No range is empty or inverted.
    pub open spec fn ordered(self) -> bool {
        &&& self.size_lo < self.size_hi
        &&& self.speed_lo < self.speed_hi
        &&& self.spin_lo < self.spin_hi
    }

    /// The ranges lie inside the engine's fixed caps.
    pub open spec fn bounded(self) -> bool {
        &&& 0 < self.size_lo
        &&& self.size_hi <= SIZE_CAP
        &&& 0 <= self.speed_lo
        &&& self.speed_hi <= RAW_SPEED_CAP
        &&& 0 <= self.spin_lo
        &&& self.spin_hi <= ROT_SPEED_CAP
    }

    /// The descriptor's drawn parameters all fall inside these ranges.
    pub open spec fn holds_for(self, st: ObjectState) -> bool {
        &&& self.size_lo <= st.size < self.size_hi
        &&& self.speed_lo <= st.speed < self.speed_hi
        &&& self.spin_lo <= st.rotation_speed < self.spin_hi
        &&& 0 <= st.going_to.x < TWO_PI_FX
        &&& 0 <= st.rotation_axis.x < TWO_PI_FX
        &&& 0 <= st.rotation_axis.y < TWO_PI_FX
    }

    /// Check the configuration; an empty or inverted range is a
    /// configuration error, fatal to that configuration.
    pub fn validate(&self) -> (r: Result<(), SpaceError>)
        ensures
            r is Ok <==> self.ordered(),
            !self.ordered() ==> r == Err::<(), SpaceError>(SpaceError::Configuration),
    {
        if self.size_lo < self.size_hi && self.speed_lo < self.speed_hi && self.spin_lo
            < self.spin_hi {
            Ok(())
        } else {
            Err(SpaceError::Configuration)
        }
    }

    /// Draw a fresh spawn descriptor from these ranges, consuming uniform
    /// randomness from the thread's generator and nothing else.
    pub fn draw(&self) -> (st: ObjectState)
        requires
            self.ordered(),
            self.bounded(),
        ensures
            st.wf_descriptor(),
            self.holds_for(st),
    {
        let mut rng = fresh_rng();
        let size = draw_range(&mut rng, self.size_lo, self.size_hi);
        let speed = draw_range(&mut rng, self.speed_lo, self.speed_hi);
        let theta = draw_range(&mut rng, 0, TWO_PI_FX);
        let axis_x = draw_range(&mut rng, 0, TWO_PI_FX);
        let axis_y = draw_range(&mut rng, 0, TWO_PI_FX);
        let spin = draw_range(&mut rng, self.spin_lo, self.spin_hi);
        ObjectState::with_parameters(size, speed, theta, axis_x, axis_y, spin)
    }
}

/// The capability contract every kind of space thing implements.
pub trait SpaceThingTrait: Sized {
    /// The shared variant state this thing animates.
    spec fn st(&self) -> ObjectState;

    /// The kind's despawn override; the default rule is `false`, leaving
    /// culling to the near-plane threshold alone.
    spec fn spec_should_despawn(&self) -> bool;

    /// updates the 3D rotation of the SpaceThing
    fn update_orientation(&mut self, dt: u64, orientation: &mut Transform)
        requires
            old(self).st().wf_spin(),
            dt <= DT_MAX,
            old(orientation).wf(),
        ensures
            *final(self) == *old(self),
            *final(orientation) == orientation_after(old(self).st(), dt as int, *old(orientation)),
            final(orientation).wf(),
    ;

    /// updates the 3D location of the SpaceThing
    fn update_location(&mut self, dt: u64, location: &mut Transform)
        requires
            old(self).st().wf(),
            old(self).st().projected,
            dt <= DT_MAX,
        ensures
            final(self).st() == after_location(old(self).st(), dt as int),
            final(self).st().wf(),
            old(self).st().travelled <= final(self).st().travelled,
            *final(location) == location_after(old(self).st(), dt as int, *old(location)),
            final(self).spec_should_despawn() == old(self).spec_should_despawn(),
    ;

    /// One-time projection setup; set FOV in world units.
    fn initialize_transform(&mut self, fov: i64) -> (r: Result<Transform, SpaceError>)
        requires
            old(self).st().wf(),
            !old(self).st().projected,
            fov <= FOV_MAX,
        ensures
            fov <= 0 ==> r == Err::<Transform, SpaceError>(SpaceError::Domain) && *final(self)
                == *old(self),
            fov > 0 ==> {
                &&& final(self).st() == projected_state(old(self).st(), fov as int)
                &&& final(self).st().wf()
                &&& r == Ok::<Transform, SpaceError>(initial_transform(old(self).st(), fov as int))
                &&& final(self).spec_should_despawn() == old(self).spec_should_despawn()
            },
    ;

    /// will return true when the SpaceThing is out of view and should
    /// despawn, before the shared near-plane rule is consulted.
    fn should_despawn(&self) -> (r: bool)
        ensures
            r == self.spec_should_despawn(),
    ;
}

/// The closed set of kinds.
#[derive(Clone, Copy, Debug)]
pub enum SpaceThing {
    Asteroid(Asteroid),
    Astronaut(Astronaut),
}

/// The same kind of thing, carrying the given variant state: what a state
/// mutation leaves behind.
pub open spec fn with_st(t: SpaceThing, st: ObjectState) -> SpaceThing {
    match t {
        SpaceThing::Asteroid(a) => SpaceThing::Asteroid(Asteroid { state: st }),
        SpaceThing::Astronaut(a) => SpaceThing::Astronaut(Astronaut { state: st }),
    }
}

impl SpaceThingTrait for SpaceThing {
    open spec fn st(&self) -> ObjectState {
        match self {
            SpaceThing::Asteroid(a) => a.st(),
            SpaceThing::Astronaut(a) => a.st(),
        }
    }

    open spec fn spec_should_despawn(&self) -> bool {
        match self {
            SpaceThing::Asteroid(a) => a.spec_should_despawn(),
            SpaceThing::Astronaut(a) => a.spec_should_despawn(),
        }
    }

    fn update_orientation(&mut self, dt: u64, orientation: &mut Transform) {
        match self {
            SpaceThing::Asteroid(a) => a.update_orientation(dt, orientation),
            SpaceThing::Astronaut(a) => a.update_orientation(dt, orientation),
        }
    }

    fn update_location(&mut self, dt: u64, location: &mut Transform)
        ensures
            *final(self) == with_st(*old(self), after_location(old(self).st(), dt as int)),
    {
        match self {
            SpaceThing::Asteroid(a) => a.update_location(dt, location),
            SpaceThing::Astronaut(a) => a.update_location(dt, location),
        }
    }

    fn initialize_transform(&mut self, fov: i64) -> (r: Result<Transform, SpaceError>)
        ensures
            fov > 0 ==> *final(self) == with_st(
                *old(self),
                projected_state(old(self).st(), fov as int),
            ),
    {
        match self {
            SpaceThing::Asteroid(a) => a.initialize_transform(fov),
            SpaceThing::Astronaut(a) => a.initialize_transform(fov),
        }
    }

    fn should_despawn(&self) -> (r: bool) {
        match self {
            SpaceThing::Asteroid(a) => a.should_despawn(),
            SpaceThing::Astronaut(a) => a.should_despawn(),
        }
    }
}

impl Default for SpaceThing {
    /// A freshly drawn asteroid, the canonical kind.
    fn default() -> (t: SpaceThing)
        ensures
            t.st().wf_descriptor(),
            t is Asteroid,
    {
        SpaceThing::Asteroid(Asteroid::default())
    }
}

/// Which kind the factory is asked for.
#[derive(Clone, Copy, Debug, PartialEq, Eq, Structural)]
pub enum SpaceKind {
    Asteroid,
    Astronaut,
}

/// The object factory: construct a new space thing of the requested kind,
/// its parameters drawn uniformly from `ranges`. Fails, with a configuration
/// error, exactly when some range is empty or inverted.
pub fn create(kind: SpaceKind, ranges: &SpawnRanges) -> (r: Result<SpaceThing, SpaceError>)
    requires
        ranges.bounded(),
    ensures
        r is Ok <==> ranges.ordered(),
        !ranges.ordered() ==> r == Err::<SpaceThing, SpaceError>(SpaceError::Configuration),
        r is Ok ==> {
            &&& r->Ok_0.st().wf_descriptor()
            &&& ranges.holds_for(r->Ok_0.st())
            &&& (r->Ok_0 is Asteroid <==> kind is Asteroid)
        },
{
    match ranges.validate() {
        Ok(()) => {
            let st = ranges.draw();
            match kind {
                SpaceKind::Asteroid => Ok(SpaceThing::Asteroid(Asteroid::from_state(st))),
                SpaceKind::Astronaut => Ok(SpaceThing::Astronaut(Astronaut::from_state(st))),
            }
        },
        Err(e) => Err(e),
    }
}

/// The full culling rule for one live object: the kind's own override, or
/// the translation past the near-plane threshold.
pub open spec fn spec_despawn_now(t: SpaceThing, tr: Transform) -> bool {
    t.spec_should_despawn() || tr.translation.z > DESPAWN_Z_FX
}

/// Decide whether a live object is out of view and must be removed.
pub fn despawn_now(t: &SpaceThing, tr: &Transform) -> (r: bool)
    ensures
        r == spec_despawn_now(*t, *tr),
{
    t.should_despawn() || tr.translation.z > DESPAWN_Z_FX
}

/// Every kind currently uses the default (false) despawn override, so the
/// culling rule is exactly the near-plane test: false while the translation
/// depth is at most the threshold, true once it exceeds it.
pub proof fn lemma_default_despawn_rule(t: SpaceThing, tr: Transform)
    ensures
        spec_despawn_now(t, tr) <==> tr.translation.z > DESPAWN_Z_FX,
{
    match t {
        SpaceThing::Asteroid(a) => {},
        SpaceThing::Astronaut(a) => {},
    }
}

} // verus!

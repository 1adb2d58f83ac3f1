//! The per-object variant state and the trajectory engine shared by every
//! kind of space thing.
//!
//! An object lives in two phases. Fresh from the factory it is a *spawn
//! descriptor*: `going_to` holds spherical parameters (azimuth, the fixed
//! polar angle `HALF_PI_FX`, radius equal to the object's size), `spawn_at`
//! is the origin, and `travelled` and `scale` are zero. Projection setup
//! (`initialize_transform`) runs exactly once per object: it moves the spawn
//! point back along the view axis, rescales the speed into a per-second rate
//! over the distance to travel, scales the target radius by
//! `fov / 2 + scale` (and returns the near point as the initial transform),
//! and collapses `going_to` into Cartesian coordinates. The `projected` flag
//! records the irreversible transition; the setup precondition excludes an
//! already-projected object, so stale spherical values can never be reused.

use vstd::prelude::*;
use vstd::arithmetic::div_mod::{lemma_div_is_ordered, lemma_div_multiples_vanish};
use vstd::arithmetic::mul::{lemma_mul_nonnegative, lemma_mul_upper_bound};
use crate::fx::{
    add_saturating_at, fxmd, isqrt, lemma_fxmd_bound, lemma_fxmd_nonneg, lemma_sqrt_fl_le,
    mul_div, mul_div_nn, rem_nn, sqrt_fl, SCALE,
};
use crate::transform::{Transform, Vec2Fx, Vec3Fx};
use crate::trig::{cos_fx, cos_fx_spec, sin_fx, sin_fx_spec, HALF_PI_FX, TWO_PI_FX};
use crate::SpaceError;

verus! {

/// Largest characteristic size an object may be configured with (one world
/// unit).
pub const SIZE_CAP: i64 = 1_000_000;

/// Largest raw (pre-projection) speed an object may be configured with.
pub const RAW_SPEED_CAP: i64 = 1_000_000;

/// Largest spin-rate multiplier an object may be configured with.
pub const ROT_SPEED_CAP: i64 = 1_000_000;

/// Largest accepted field-of-view distance (ten million world units).
pub const FOV_MAX: i64 = 10_000_000_000_000;

/// Projected per-second speeds stay under this bound.
pub const SPEED_CAP: i64 = 20_000_000_000_000;

/// Spawn and target coordinates stay under this bound.
pub const COORD_CAP: i64 = 30_000_000_000_000;

/// Derived uniform scales stay under this bound.
pub const SCALE_CAP: i64 = 1_000_000_000_000;

/// The travel accumulator saturates here, far past every despawn threshold,
/// so that per-tick updates are total.
pub const TRAVELLED_MAX: i64 = 100_000_000_000;

/// Largest accepted per-tick delta time (a thousand seconds), far beyond any
/// host frame pacing.
pub const DT_MAX: u64 = 1_000_000_000;

/// The shared randomized parameters and derived trajectory constants of one
/// animated object. All scalars are fixed-point micro-units; angles are
/// micro-radians.
#[derive(Clone, Copy, Debug, PartialEq, Eq, Structural)]
pub struct ObjectState {
    /// The object's characteristic dimension.
    pub size: i64,
    /// Spherical parameters before projection setup; the Cartesian target
    /// afterwards.
    pub going_to: Vec3Fx,
    /// Where the object begins: the origin before setup, a point pushed back
    /// along the view axis afterwards.
    pub spawn_at: Vec3Fx,
    /// Angular speed as drawn; rescaled exactly once by projection setup into
    /// a per-second travel rate.
    pub speed: i64,
    /// Spin rates about two perpendicular axes.
    pub rotation_axis: Vec2Fx,
    /// Multiplier applied to both spin rates each tick.
    pub rotation_speed: i64,
    /// Unit-free progress accumulator, the interpolation parameter between
    /// `spawn_at` and `going_to`; deliberately unclamped, so the object can
    /// overshoot its nominal target until the culler removes it.
    pub travelled: i64,
    /// Derived uniform render scale, proportional to size and field of view.
    pub scale: i64,
    /// Whether projection setup has run; set once, never cleared.
    pub projected: bool,
}

impl ObjectState {
    /// The spin parameters every phase keeps within range.
    pub open spec fn wf_spin(self) -> bool {
        &&& 0 <= self.rotation_axis.x < TWO_PI_FX
        &&& 0 <= self.rotation_axis.y < TWO_PI_FX
        &&& 0 <= self.rotation_speed <= ROT_SPEED_CAP
    }

    /// Well-formed spawn descriptor: spherical `going_to`, origin spawn
    /// point, nothing travelled, no derived scale yet.
    pub open spec fn wf_descriptor(self) -> bool {
        &&& 0 < self.size <= SIZE_CAP
        &&& 0 <= self.speed <= RAW_SPEED_CAP
        &&& self.spawn_at == (Vec3Fx { x: 0, y: 0, z: 0 })
        &&& 0 <= self.going_to.x < TWO_PI_FX
        &&& self.going_to.y == HALF_PI_FX
        &&& self.going_to.z == self.size
        &&& self.wf_spin()
        &&& self.travelled == 0
        &&& self.scale == 0
        &&& !self.projected
    }

    /// Well-formed projected object: Cartesian `going_to`, spawn point on
    /// the negative view axis, everything inside the engine's caps.
    pub open spec fn wf_projected(self) -> bool {
        &&& 0 < self.size <= SIZE_CAP
        &&& 0 <= self.speed <= SPEED_CAP
        &&& self.spawn_at.x == 0
        &&& self.spawn_at.y == 0
        &&& -FOV_MAX <= self.spawn_at.z <= -1
        &&& -COORD_CAP <= self.going_to.x <= COORD_CAP
        &&& -COORD_CAP <= self.going_to.y <= COORD_CAP
        &&& -COORD_CAP <= self.going_to.z <= COORD_CAP
        &&& self.wf_spin()
        &&& 0 <= self.travelled <= TRAVELLED_MAX
        &&& 0 <= self.scale <= SCALE_CAP
        &&& self.projected
    }

    /// Phase-dependent well-formedness.
    pub open spec fn wf(self) -> bool {
        if self.projected {
            self.wf_projected()
        } else {
            self.wf_descriptor()
        }
    }

    /// A spawn descriptor from explicit parameter values: the deterministic
    /// heart of the factory, also usable directly for reproducible objects.
    pub fn with_parameters(
        size: i64,
        speed: i64,
        theta: i64,
        axis_x: i64,
        axis_y: i64,
        rotation_speed: i64,
    ) -> (st: ObjectState)
        requires
            0 < size <= SIZE_CAP,
            0 <= speed <= RAW_SPEED_CAP,
            0 <= theta < TWO_PI_FX,
            0 <= axis_x < TWO_PI_FX,
            0 <= axis_y < TWO_PI_FX,
            0 <= rotation_speed <= ROT_SPEED_CAP,
        ensures
            st == (ObjectState {
                size,
                going_to: Vec3Fx { x: theta, y: HALF_PI_FX, z: size },
                spawn_at: Vec3Fx { x: 0, y: 0, z: 0 },
                speed,
                rotation_axis: Vec2Fx { x: axis_x, y: axis_y },
                rotation_speed,
                travelled: 0,
                scale: 0,
                projected: false,
            }),
            st.wf_descriptor(),
    {
        ObjectState {
            size,
            going_to: Vec3Fx { x: theta, y: HALF_PI_FX, z: size },
            spawn_at: Vec3Fx { x: 0, y: 0, z: 0 },
            speed,
            rotation_axis: Vec2Fx { x: axis_x, y: axis_y },
            rotation_speed,
            travelled: 0,
            scale: 0,
            projected: false,
        }
    }
}

/// How far the travel accumulator advances in `dt` micro-seconds.
pub open spec fn travel_step(st: ObjectState, dt: int) -> int {
    st.speed * dt / (SCALE as int)
}

/// The accumulator after one location update: it grows by `speed * dt`,
/// saturating at `TRAVELLED_MAX`.
pub open spec fn next_travelled(st: ObjectState, dt: int) -> int {
    if st.travelled + travel_step(st, dt) <= TRAVELLED_MAX {
        st.travelled + travel_step(st, dt)
    } else {
        TRAVELLED_MAX as int
    }
}

/// The object state after one location update.
pub open spec fn after_location(st: ObjectState, dt: int) -> ObjectState {
    ObjectState { travelled: next_travelled(st, dt) as i64, ..st }
}

/// Componentwise linear interpolation from `a` toward `b` at unclamped
/// parameter `t` (micro-units): `a + (b - a) * t / SCALE`.
pub open spec fn lerp1(a: int, b: int, t: int) -> int {
    a + fxmd(b - a, t, SCALE as int)
}

/// The transform after one location update: translation moved to the
/// interpolation point for the new accumulator value, all else untouched.
pub open spec fn location_after(st: ObjectState, dt: int, tr: Transform) -> Transform {
    let t = next_travelled(st, dt);
    Transform {
        translation: Vec3Fx {
            x: lerp1(st.spawn_at.x as int, st.going_to.x as int, t) as i64,
            y: lerp1(st.spawn_at.y as int, st.going_to.y as int, t) as i64,
            z: lerp1(st.spawn_at.z as int, st.going_to.z as int, t) as i64,
        },
        ..tr
    }
}

/// One tick's spin about one axis: `axis * dt * rotation_speed`, the two
/// fixed-point products truncating in evaluation order.
pub open spec fn orient_delta(axis: int, dt: int, rotation_speed: int) -> int {
    fxmd(fxmd(axis, dt, SCALE as int), rotation_speed, SCALE as int)
}

/// An accumulated rotation angle, kept reduced to one turn.
pub open spec fn next_rot(rot: int, delta: int) -> int {
    (rot + delta) % (TWO_PI_FX as int)
}

/// The transform after one orientation update: both spin angles advanced,
/// first axis before second, all else untouched.
pub open spec fn orientation_after(st: ObjectState, dt: int, tr: Transform) -> Transform {
    Transform {
        rot_x: next_rot(tr.rot_x as int, orient_delta(st.rotation_axis.x as int, dt, st.rotation_speed as int)) as i64,
        rot_y: next_rot(tr.rot_y as int, orient_delta(st.rotation_axis.y as int, dt, st.rotation_speed as int)) as i64,
        ..tr
    }
}

/// The squared straight-line distance from the projected spawn point to the
/// raw contents of `going_to`, exactly as the setup step measures it (the
/// spherical parameters are read as plain coordinates).
pub open spec fn dist_sq_pre(st: ObjectState, fov: int) -> int {
    st.going_to.x * st.going_to.x + st.going_to.y * st.going_to.y + (st.going_to.z + fov) * (
    st.going_to.z + fov)
}

/// That distance, rounded down.
pub open spec fn proj_dist(st: ObjectState, fov: int) -> int {
    sqrt_fl(dist_sq_pre(st, fov))
}

/// The rescaled speed: `distance * speed / fov`, a per-second travel rate
/// consistent with the distance the object must traverse.
pub open spec fn proj_speed(st: ObjectState, fov: int) -> int {
    proj_dist(st, fov) * st.speed / fov
}

/// The derived render scale: `size * fov * 0.05`.
pub open spec fn proj_scale(st: ObjectState, fov: int) -> int {
    st.size * fov / 20_000_000
}

/// The factor the target radius is scaled by: `fov / 2 + scale`.
pub open spec fn proj_factor(st: ObjectState, fov: int) -> int {
    fov / 2 + proj_scale(st, fov)
}

/// The scaled target radius.
pub open spec fn proj_radius(st: ObjectState, fov: int) -> int {
    fxmd(st.going_to.z as int, proj_factor(st, fov), SCALE as int)
}

/// The shared first factor of the Cartesian x and y targets:
/// `radius * sin(polar)`.
pub open spec fn proj_tmp(st: ObjectState, fov: int) -> int {
    fxmd(proj_radius(st, fov), sin_fx_spec(st.going_to.y as int), SCALE as int)
}

/// Cartesian target x: `radius * sin(polar) * cos(azimuth)`.
pub open spec fn proj_x(st: ObjectState, fov: int) -> int {
    fxmd(proj_tmp(st, fov), cos_fx_spec(st.going_to.x as int), SCALE as int)
}

/// Cartesian target y: `radius * sin(polar) * sin(azimuth)`.
pub open spec fn proj_y(st: ObjectState, fov: int) -> int {
    fxmd(proj_tmp(st, fov), sin_fx_spec(st.going_to.x as int), SCALE as int)
}

/// Cartesian target z: `radius * cos(polar)`.
pub open spec fn proj_z(st: ObjectState, fov: int) -> int {
    fxmd(proj_radius(st, fov), cos_fx_spec(st.going_to.y as int), SCALE as int)
}

/// The whole object state after projection setup: a pure function of the
/// descriptor and the field of view, with no further randomness.
pub open spec fn projected_state(st: ObjectState, fov: int) -> ObjectState {
    ObjectState {
        spawn_at: Vec3Fx { x: 0, y: 0, z: (-fov) as i64 },
        speed: proj_speed(st, fov) as i64,
        scale: proj_scale(st, fov) as i64,
        going_to: Vec3Fx {
            x: proj_x(st, fov) as i64,
            y: proj_y(st, fov) as i64,
            z: proj_z(st, fov) as i64,
        },
        projected: true,
        ..st
    }
}

/// The transform setup returns: the point the object starts at, no spin yet,
/// the derived uniform scale.
pub open spec fn initial_transform(st: ObjectState, fov: int) -> Transform {
    Transform {
        translation: projected_state(st, fov).spawn_at,
        rot_x: 0,
        rot_y: 0,
        scale: projected_state(st, fov).scale,
    }
}

/// The object state after a whole sequence of location updates.
pub open spec fn after_locations(st: ObjectState, dts: Seq<u64>) -> ObjectState
    decreases dts.len(),
{
    if dts.len() == 0 {
        st
    } else {
        after_locations(after_location(st, dts[0] as int), dts.drop_first())
    }
}

/// The travel accumulator never decreases across any sequence of location
/// updates, and the object stays well formed and projected throughout.
pub proof fn lemma_travelled_monotone(st: ObjectState, dts: Seq<u64>)
    requires
        st.wf(),
        st.projected,
        forall|i: int| 0 <= i < dts.len() ==> #[trigger] dts[i] <= DT_MAX,
    ensures
        st.travelled <= after_locations(st, dts).travelled,
        after_locations(st, dts).wf(),
        after_locations(st, dts).projected,
    decreases dts.len(),
{
    if dts.len() > 0 {
        let st1 = after_location(st, dts[0] as int);
        assert(0 <= travel_step(st, dts[0] as int)) by {
            lemma_mul_nonnegative(st.speed as int, dts[0] as int);
            lemma_div_is_ordered(0, st.speed * dts[0], SCALE as int);
        }
        lemma_travelled_monotone(st1, dts.drop_first());
    }
}

/// Projection setup is a pure function of the spawn descriptor and the field
/// of view: identical descriptors and an identical field of view yield
/// identical projected states and identical initial transforms.
pub proof fn lemma_projection_deterministic(a: ObjectState, b: ObjectState, fov: int)
    requires
        a == b,
    ensures
        projected_state(a, fov) == projected_state(b, fov),
        initial_transform(a, fov) == initial_transform(b, fov),
{
}

/// Projection setup happens at most once per object: its result is marked
/// projected, so it never satisfies the setup precondition again and a
/// converted `going_to` is never reconverted. It genuinely mutates a fresh
/// descriptor: the result always differs from the input.
pub proof fn lemma_projection_one_time(st: ObjectState, fov: int)
    ensures
        projected_state(st, fov).projected,
        !st.projected ==> projected_state(st, fov) != st,
{
}

/// Interpolate one coordinate; total within the engine's caps.
fn lerp_fx(a: i64, b: i64, t: i64) -> (r: i64)
    requires
        -COORD_CAP <= a <= COORD_CAP,
        -COORD_CAP <= b <= COORD_CAP,
        0 <= t <= TRAVELLED_MAX,
    ensures
        r == lerp1(a as int, b as int, t as int),
{
    proof {
        lemma_fxmd_bound(b - a, t as int, SCALE as int, 2 * COORD_CAP, TRAVELLED_MAX as int);
    }
    let diff: i64 = b - a;
    let m: i64 = mul_div(diff, t, SCALE);
    a + m
}

impl ObjectState {
    /// Advance both spin angles of `orientation` by this object's spin rates
    /// over `dt` micro-seconds, first axis then second. The object itself is
    /// unchanged.
    pub fn update_orientation(&mut self, dt: u64, orientation: &mut Transform)
        requires
            old(self).wf_spin(),
            dt <= DT_MAX,
            old(orientation).wf(),
        ensures
            *final(self) == *old(self),
            *final(orientation) == orientation_after(*old(self), dt as int, *old(orientation)),
            final(orientation).wf(),
    {
        proof {
            lemma_fxmd_nonneg(self.rotation_axis.x as int, dt as int, SCALE as int);
            lemma_fxmd_bound(self.rotation_axis.x as int, dt as int, SCALE as int, TWO_PI_FX as int, DT_MAX as int);
            lemma_fxmd_nonneg(self.rotation_axis.y as int, dt as int, SCALE as int);
            lemma_fxmd_bound(self.rotation_axis.y as int, dt as int, SCALE as int, TWO_PI_FX as int, DT_MAX as int);
        }
        let tx: i64 = mul_div_nn(self.rotation_axis.x, dt as i64, SCALE);
        let ty: i64 = mul_div_nn(self.rotation_axis.y, dt as i64, SCALE);
        proof {
            lemma_fxmd_bound(tx as int, self.rotation_speed as int, SCALE as int, 6_283_185_000, ROT_SPEED_CAP as int);
            lemma_fxmd_bound(ty as int, self.rotation_speed as int, SCALE as int, 6_283_185_000, ROT_SPEED_CAP as int);
        }
        let dx: i64 = mul_div_nn(tx, self.rotation_speed, SCALE);
        let dy: i64 = mul_div_nn(ty, self.rotation_speed, SCALE);
        orientation.rot_x = rem_nn(orientation.rot_x + dx, TWO_PI_FX);
        orientation.rot_y = rem_nn(orientation.rot_y + dy, TWO_PI_FX);
    }

    /// Advance the travel accumulator by `speed * dt` (saturating at
    /// `TRAVELLED_MAX`) and move `location`'s translation to the unclamped
    /// interpolation point between `spawn_at` and `going_to`.
    pub fn update_location(&mut self, dt: u64, location: &mut Transform)
        requires
            old(self).wf(),
            old(self).projected,
            dt <= DT_MAX,
        ensures
            *final(self) == after_location(*old(self), dt as int),
            final(self).wf(),
            old(self).travelled <= final(self).travelled,
            *final(location) == location_after(*old(self), dt as int, *old(location)),
    {
        proof {
            lemma_fxmd_nonneg(self.speed as int, dt as int, SCALE as int);
            lemma_fxmd_bound(self.speed as int, dt as int, SCALE as int, SPEED_CAP as int, DT_MAX as int);
        }
        let step: i64 = mul_div_nn(self.speed, dt as i64, SCALE);
        self.travelled = add_saturating_at(self.travelled, step, TRAVELLED_MAX);
        let t: i64 = self.travelled;
        location.translation = Vec3Fx {
            x: lerp_fx(self.spawn_at.x, self.going_to.x, t),
            y: lerp_fx(self.spawn_at.y, self.going_to.y, t),
            z: lerp_fx(self.spawn_at.z, self.going_to.z, t),
        };
    }

    /// One-time projection setup: requires a fresh descriptor, rejects a
    /// non-positive field of view, and otherwise moves the spawn point back
    /// along the view axis, rescales the speed over the measured distance,
    /// derives the render scale, scales the target radius by
    /// `fov / 2 + scale`, converts `going_to` to Cartesian coordinates, and
    /// returns the initial transform at the spawn point.
    pub fn initialize_transform(&mut self, fov: i64) -> (r: Result<Transform, SpaceError>)
        requires
            old(self).wf(),
            !old(self).projected,
            fov <= FOV_MAX,
        ensures
            fov <= 0 ==> r == Err::<Transform, SpaceError>(SpaceError::Domain) && *final(self)
                == *old(self),
            fov > 0 ==> {
                &&& *final(self) == projected_state(*old(self), fov as int)
                &&& final(self).wf()
                &&& r == Ok::<Transform, SpaceError>(initial_transform(*old(self), fov as int))
            },
    {
        if fov <= 0 {
            return Err(SpaceError::Domain);
        }
        self.spawn_at = Vec3Fx { x: 0, y: 0, z: -fov };
        let dx: i64 = self.going_to.x;
        let dy: i64 = self.going_to.y;
        let dz: i64 = self.going_to.z + fov;
        proof {
            lemma_mul_upper_bound(dx as int, 6_283_185, dx as int, 6_283_185);
            lemma_mul_upper_bound(dy as int, 1_570_796, dy as int, 1_570_796);
            lemma_mul_upper_bound(dz as int, FOV_MAX + SIZE_CAP, dz as int, FOV_MAX + SIZE_CAP);
        }
        let ghost size0: int = old(self).going_to.z as int;
        let d2: u128 = (dx as u128) * (dx as u128) + (dy as u128) * (dy as u128) + (dz as u128) * (
        dz as u128);
        let dist64: u64 = isqrt(d2);
        proof {
            assert(d2 <= (fov + 9_000_000) * (fov + 9_000_000)) by (nonlinear_arith)
                requires
                    d2 == dx * dx + dy * dy + dz * dz,
                    0 <= dx < 6_283_185,
                    dy == 1_570_796,
                    dz == size0 + fov,
                    0 < size0 <= 1_000_000,
                    1 <= fov,
            ;
            lemma_sqrt_fl_le(d2 as int, fov + 9_000_000);
        }
        let dist: i64 = dist64 as i64;
        proof {
            lemma_mul_upper_bound(dist as int, fov + 9_000_000, self.speed as int, 1_000_000);
            assert((fov + 9_000_000) * 1_000_000 <= 9_000_001_000_000 * fov) by (nonlinear_arith)
                requires
                    1 <= fov,
            ;
            lemma_div_is_ordered(dist * self.speed, 9_000_001_000_000 * fov, fov as int);
            lemma_div_multiples_vanish(9_000_001_000_000, fov as int);
        }
        let speed_new: i64 = mul_div_nn(dist, self.speed, fov);
        self.speed = speed_new;
        proof {
            lemma_mul_upper_bound(self.size as int, SIZE_CAP as int, fov as int, FOV_MAX as int);
            lemma_div_is_ordered(
                self.size * fov,
                SIZE_CAP as int * FOV_MAX as int,
                20_000_000,
            );
        }
        let scale: i64 = mul_div_nn(self.size, fov, 20_000_000);
        self.scale = scale;
        let half_fov: i64 = ((fov as u64) / 2) as i64;
        let factor: i64 = half_fov + scale;
        proof {
            lemma_div_is_ordered(fov as int, FOV_MAX as int, 2);
            lemma_fxmd_nonneg(self.going_to.z as int, factor as int, SCALE as int);
            lemma_fxmd_bound(
                self.going_to.z as int,
                factor as int,
                SCALE as int,
                SIZE_CAP as int,
                5_500_000_000_000,
            );
        }
        let radius: i64 = mul_div_nn(self.going_to.z, factor, SCALE);
        let sin_polar: i64 = sin_fx(self.going_to.y);
        let cos_polar: i64 = cos_fx(self.going_to.y);
        let sin_az: i64 = sin_fx(self.going_to.x);
        let cos_az: i64 = cos_fx(self.going_to.x);
        proof {
            lemma_fxmd_bound(
                radius as int,
                sin_polar as int,
                SCALE as int,
                5_500_000_000_000,
                1_800_000,
            );
            lemma_fxmd_bound(
                radius as int,
                cos_polar as int,
                SCALE as int,
                5_500_000_000_000,
                1_800_000,
            );
        }
        let tmp: i64 = mul_div(radius, sin_polar, SCALE);
        let gz: i64 = mul_div(radius, cos_polar, SCALE);
        proof {
            lemma_fxmd_bound(tmp as int, cos_az as int, SCALE as int, 9_900_000_000_000, 1_800_000);
            lemma_fxmd_bound(tmp as int, sin_az as int, SCALE as int, 9_900_000_000_000, 1_800_000);
        }
        let gx: i64 = mul_div(tmp, cos_az, SCALE);
        let gy: i64 = mul_div(tmp, sin_az, SCALE);
        self.going_to = Vec3Fx { x: gx, y: gy, z: gz };
        self.projected = true;
        Ok(Transform::from_xyz_scale(self.spawn_at, scale))
    }
}


} // verus!

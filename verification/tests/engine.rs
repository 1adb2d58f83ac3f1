//! Tests of the variant state, the factory ranges, the trajectory engine,
//! and the fixed-point kernels it rests on.

use space_stuff::fx::{isqrt, mul_div};
use space_stuff::space_objects::asteroid::Asteroid;
use space_stuff::space_objects::astronaut::Astronaut;
use space_stuff::space_objects::state::ObjectState;
use space_stuff::space_objects::{despawn_now, SpaceThing, SpaceThingTrait};
use space_stuff::transform::{Transform, Vec3Fx};
use space_stuff::trig::{cos_fx, sin_fx};
use space_stuff::SpaceError;

fn golden_descriptor() -> ObjectState {
    // theta = 0, size = 0.2, speed = 0.2, no spin.
    ObjectState::with_parameters(200_000, 200_000, 0, 0, 0, 0)
}

#[test]
fn isqrt_exact_values() {
    assert_eq!(isqrt(0), 0);
    assert_eq!(isqrt(1), 1);
    assert_eq!(isqrt(15), 3);
    assert_eq!(isqrt(16), 4);
    assert_eq!(isqrt(1_000_000_000_000_000_000_000_000), 1_000_000_000_000);
    assert_eq!(isqrt(u64::MAX as u128 * u64::MAX as u128), u64::MAX);
}

#[test]
fn mul_div_truncates_toward_zero() {
    assert_eq!(mul_div(7, 3, 2), 10);
    assert_eq!(mul_div(-7, 3, 2), -10);
    assert_eq!(mul_div(7, -3, 2), -10);
    assert_eq!(mul_div(-7, -3, 2), 10);
    assert_eq!(mul_div(1, 1, 2), 0);
    assert_eq!(mul_div(-1, 1, 2), 0);
}

#[test]
fn trig_quadrant_boundaries_are_exact() {
    assert_eq!(sin_fx(0), 0);
    assert_eq!(cos_fx(0), 1_000_000);
    assert_eq!(sin_fx(1_570_796), 1_000_000);
    assert_eq!(cos_fx(1_570_796), 0);
    assert_eq!(sin_fx(3_141_592), 0);
    assert_eq!(cos_fx(3_141_592), -1_000_000);
    assert_eq!(sin_fx(4_712_388), -1_000_000);
    assert_eq!(cos_fx(4_712_388), 0);
}

#[test]
fn trig_mid_quadrant_is_close() {
    // sin and cos of pi/4 are about 0.7071068.
    let s = sin_fx(785_398);
    let c = cos_fx(785_398);
    assert!((s - 707_107).abs() < 50, "sin(pi/4) = {s}");
    assert!((c - 707_107).abs() < 50, "cos(pi/4) = {c}");
}

#[test]
fn asteroid_factory_ranges() {
    // P-range check: every drawn asteroid falls in the documented bounds.
    for _ in 0..64 {
        let a = Asteroid::default();
        let st = a.state;
        assert!(st.size >= 100_000 && st.size < 240_000);
        assert!(st.speed >= 165_000 && st.speed < 250_000);
        assert!(st.rotation_speed >= 0 && st.rotation_speed < 250_000);
        assert!(st.going_to.x >= 0 && st.going_to.x < 6_283_185);
        assert!(st.rotation_axis.x >= 0 && st.rotation_axis.x < 6_283_185);
        assert!(st.rotation_axis.y >= 0 && st.rotation_axis.y < 6_283_185);
        assert!(!st.projected);
        assert_eq!(st.travelled, 0);
        assert_eq!(st.scale, 0);
        assert_eq!(st.spawn_at, Vec3Fx { x: 0, y: 0, z: 0 });
        assert_eq!(st.going_to.y, 1_570_796);
        assert_eq!(st.going_to.z, st.size);
    }
}

#[test]
fn astronaut_factory_ranges() {
    for _ in 0..16 {
        let a = Astronaut::default();
        let st = a.state;
        assert!(st.size >= 100_000 && st.size < 240_000);
        assert!(st.speed >= 165_000 && st.speed < 250_000);
        assert!(!st.projected);
    }
}

#[test]
fn golden_projection() {
    // End-to-end reference: theta = 0, size = 0.2, speed = 0.2,
    // fov = 1_000_000 world units.
    let mut st = golden_descriptor();
    let tr = st.initialize_transform(1_000_000_000_000).unwrap();
    assert_eq!(st.spawn_at, Vec3Fx { x: 0, y: 0, z: -1_000_000_000_000 });
    // scale = 0.2 * 1_000_000 * 0.05 = 10_000 world units.
    assert_eq!(st.scale, 10_000_000_000);
    // speed = distance * 0.2 / fov, and the distance is within a hair of
    // the fov, so the rate comes back to 0.2 per second.
    assert_eq!(st.speed, 200_000);
    // The scaled radius is 0.2 * (fov / 2 + scale) = 102_000 units; with
    // azimuth 0 and polar pi/2 the spherical-to-Cartesian formulas put all
    // of it on the x axis.
    assert_eq!(st.going_to, Vec3Fx { x: 102_000_000_000, y: 0, z: 0 });
    assert!(st.projected);
    // The returned transform sits at the spawn point with the derived scale
    // and no spin.
    assert_eq!(tr.translation, st.spawn_at);
    assert_eq!(tr.scale, 10_000_000_000);
    assert_eq!(tr.rot_x, 0);
    assert_eq!(tr.rot_y, 0);
}

#[test]
fn projection_is_deterministic() {
    // Two independently built objects with identical parameters and the
    // same fov project to identical states and transforms; each is set up
    // exactly once.
    let mut a = golden_descriptor();
    let mut b = golden_descriptor();
    let ta = a.initialize_transform(1_000_000_000_000).unwrap();
    let tb = b.initialize_transform(1_000_000_000_000).unwrap();
    assert_eq!(ta, tb);
    assert_eq!(a, b);
}

#[test]
fn projection_marks_the_state_projected() {
    // The one-time transition is recorded: the spherical parameters are
    // gone and the flag that guards reconversion is set.
    let mut st = golden_descriptor();
    assert!(!st.projected);
    st.initialize_transform(1_000_000_000_000).unwrap();
    assert!(st.projected);
}

#[test]
fn projection_rejects_non_positive_fov() {
    let mut st = golden_descriptor();
    let before = st;
    assert_eq!(st.initialize_transform(0), Err(SpaceError::Domain));
    assert_eq!(st, before);
    assert_eq!(st.initialize_transform(-5), Err(SpaceError::Domain));
    assert_eq!(st, before);
}

#[test]
fn travelled_is_monotone() {
    let mut st = golden_descriptor();
    let mut tr = st.initialize_transform(1_000_000_000_000).unwrap();
    let mut last = st.travelled;
    for dt in [0u64, 16_000, 33_000, 0, 250_000, 1_000_000, 1_000_000_000] {
        st.update_location(dt, &mut tr);
        assert!(st.travelled >= last);
        last = st.travelled;
    }
}

#[test]
fn location_update_interpolates_exactly() {
    let mut st = golden_descriptor();
    let mut tr = st.initialize_transform(1_000_000_000_000).unwrap();
    // One second at 0.2 per second: travelled = 0.2.
    st.update_location(1_000_000, &mut tr);
    assert_eq!(st.travelled, 200_000);
    // x: 0 + 102_000 * 0.2 = 20_400 units.
    assert_eq!(tr.translation.x, 20_400_000_000);
    assert_eq!(tr.translation.y, 0);
    // z: -fov + (0 + fov) * 0.2 = -800_000 units.
    assert_eq!(tr.translation.z, -800_000_000_000);
    // Four more seconds bring it to the nominal target...
    for _ in 0..4 {
        st.update_location(1_000_000, &mut tr);
    }
    assert_eq!(st.travelled, 1_000_000);
    assert_eq!(tr.translation, Vec3Fx { x: 102_000_000_000, y: 0, z: 0 });
    // ...and the parameter keeps growing past 1: deliberate overshoot.
    st.update_location(1_000_000, &mut tr);
    assert_eq!(st.travelled, 1_200_000);
    assert_eq!(tr.translation.x, 122_400_000_000);
    assert_eq!(tr.translation.z, 200_000_000_000);
}

#[test]
fn orientation_update_accumulates_in_order() {
    let mut st = ObjectState::with_parameters(200_000, 200_000, 0, 1_000_000, 2_000_000, 250_000);
    let mut tr = st.initialize_transform(1_000_000_000_000).unwrap();
    // One second: delta = axis * 1.0 * 0.25.
    st.update_orientation(1_000_000, &mut tr);
    assert_eq!(tr.rot_x, 250_000);
    assert_eq!(tr.rot_y, 500_000);
    // The angles accumulate and wrap at a full turn.
    for _ in 0..12 {
        st.update_orientation(1_000_000, &mut tr);
    }
    assert_eq!(tr.rot_x, (13i64 * 250_000) % 6_283_185);
    assert_eq!(tr.rot_y, (13i64 * 500_000) % 6_283_185);
}

#[test]
fn despawn_rule_is_the_near_plane_test() {
    // For every variant with the default override, the rule is exactly
    // translation.z > 8.
    let mut st = golden_descriptor();
    st.initialize_transform(1_000_000_000_000).unwrap();
    let asteroid = SpaceThing::Asteroid(Asteroid::from_state(st));
    let astronaut = SpaceThing::Astronaut(Astronaut::from_state(st));
    let mut tr = Transform::from_xyz_scale(Vec3Fx { x: 0, y: 0, z: 8_000_000 }, 1);
    assert!(!despawn_now(&asteroid, &tr));
    assert!(!despawn_now(&astronaut, &tr));
    tr.translation.z = 8_000_001;
    assert!(despawn_now(&asteroid, &tr));
    assert!(despawn_now(&astronaut, &tr));
    tr.translation.z = -5_000_000_000;
    assert!(!despawn_now(&asteroid, &tr));
    assert!(!asteroid.should_despawn());
    assert!(!astronaut.should_despawn());
}

#[test]
fn default_space_thing_is_an_asteroid() {
    let t = SpaceThing::default();
    assert!(matches!(t, SpaceThing::Asteroid(_)));
}

//! Tests of the spawn scheduler, the factory's configuration checking, the
//! registry tick loop, and the debug texture bytes.

use space_stuff::space_objects::asteroid::Asteroid;
use space_stuff::space_objects::state::ObjectState;
use space_stuff::space_objects::{create, SpaceKind, SpaceThing, SpawnRanges};
use space_stuff::space_stuff::{
    time_to_spawn, uv_debug_texture_data, LiveObject, SpaceStuff, SpawnSchedule,
};
use space_stuff::transform::{Transform, Vec2Fx, Vec3Fx};
use space_stuff::SpaceError;

#[test]
fn scheduler_examples() {
    // interval = 2.5 s, window = 0.0303 s.
    let s = SpawnSchedule::standard();
    assert!(s.is_spawn_due(2_500_500));
    assert!(s.is_spawn_due(0));
    assert!(s.is_spawn_due(5_000_000));
    assert!(!s.is_spawn_due(2_431_000));
    assert!(!s.is_spawn_due(31_000));
    assert!(s.is_spawn_due(30_300));
}

#[test]
fn scheduler_alternate_configuration() {
    // interval = 3 s, window = 0.04 s.
    let s = SpawnSchedule::relaxed();
    assert!(s.is_spawn_due(3_000_000));
    assert!(s.is_spawn_due(6_040_000));
    assert!(!s.is_spawn_due(2_500_500));
    assert!(!s.is_spawn_due(41_000));
}

#[test]
fn time_to_spawn_uses_the_standard_schedule() {
    assert!(time_to_spawn(0));
    assert!(time_to_spawn(2_500_500));
    assert!(!time_to_spawn(1_000_000));
}

#[test]
fn factory_rejects_inverted_ranges() {
    let mut ranges = Asteroid::ranges();
    ranges.size_lo = 240_000;
    ranges.size_hi = 100_000;
    assert!(matches!(
        create(SpaceKind::Asteroid, &ranges),
        Err(SpaceError::Configuration)
    ));
    let mut empty = Asteroid::ranges();
    empty.speed_hi = empty.speed_lo;
    assert!(matches!(
        create(SpaceKind::Astronaut, &empty),
        Err(SpaceError::Configuration)
    ));
}

#[test]
fn factory_creates_the_requested_kind() {
    let ranges = Asteroid::ranges();
    let a = create(SpaceKind::Asteroid, &ranges).unwrap();
    assert!(matches!(a, SpaceThing::Asteroid(_)));
    let b = create(SpaceKind::Astronaut, &ranges).unwrap();
    assert!(matches!(b, SpaceThing::Astronaut(_)));
}

#[test]
fn build_checks_the_configuration() {
    let schedule = SpawnSchedule::standard();
    let good = Asteroid::ranges();
    let mut bad = good;
    bad.spin_lo = 300_000;
    bad.spin_hi = 200_000;
    assert!(matches!(
        SpaceStuff::build(schedule, SpaceKind::Asteroid, bad, 1_000_000_000_000),
        Err(SpaceError::Configuration)
    ));
    assert!(matches!(
        SpaceStuff::build(schedule, SpaceKind::Asteroid, good, 0),
        Err(SpaceError::Domain)
    ));
    let s = SpaceStuff::build(schedule, SpaceKind::Asteroid, good, 1_000_000_000_000).unwrap();
    assert_eq!(s.things.len(), 0);
    assert_eq!(s.fov, 1_000_000_000_000);
}

#[test]
fn tick_spawns_when_due_and_advances() {
    let mut s = SpaceStuff::build(
        SpawnSchedule::standard(),
        SpaceKind::Asteroid,
        Asteroid::ranges(),
        1_000_000_000_000,
    )
    .unwrap();
    // Elapsed 0 is inside the spawn window: one object appears and is far
    // behind the camera, so the same tick's cull keeps it.
    s.tick(0, 16_000);
    assert_eq!(s.things.len(), 1);
    assert!(matches!(s.things[0].thing, SpaceThing::Asteroid(_)));
    assert!(s.things[0].transform.translation.z < 0);
    // Elapsed 1.0 s is outside the window: no spawn, still one object.
    s.tick(1_000_000, 16_000);
    assert_eq!(s.things.len(), 1);
}

#[test]
fn tick_culls_objects_past_the_near_plane() {
    let mut s = SpaceStuff::build(
        SpawnSchedule::standard(),
        SpaceKind::Asteroid,
        Asteroid::ranges(),
        1_000_000_000_000,
    )
    .unwrap();
    // A hand-made live object whose interpolation point is already past the
    // near plane: spawn just behind the origin, target at depth 20, a full
    // parameter of progress.
    let mut st = ObjectState::with_parameters(200_000, 0, 0, 0, 0, 0);
    st.spawn_at = Vec3Fx { x: 0, y: 0, z: -1 };
    st.going_to = Vec3Fx { x: 0, y: 0, z: 20_000_000 };
    st.speed = 0;
    st.travelled = 1_000_000;
    st.scale = 10;
    st.projected = true;
    st.rotation_axis = Vec2Fx { x: 0, y: 0 };
    let tr = Transform::from_xyz_scale(Vec3Fx { x: 0, y: 0, z: -1 }, 10);
    s.things.push(LiveObject {
        thing: SpaceThing::Asteroid(Asteroid::from_state(st)),
        transform: tr,
    });
    // Not in the spawn window; the update puts the object at z = 20 and the
    // cull removes it.
    s.tick(1_000_000, 0);
    assert_eq!(s.things.len(), 0);
}

#[test]
fn texture_bytes_rotate_the_palette() {
    let palette: [u8; 32] = [
        255, 102, 159, 255, 255, 159, 102, 255, 236, 255, 102, 255, 121, 255, 102, 255, 102, 255,
        198, 255, 102, 198, 255, 255, 121, 102, 255, 255, 236, 102, 255, 255,
    ];
    let data = uv_debug_texture_data();
    assert_eq!(data.len(), 256);
    // Row 0 is the palette itself.
    assert_eq!(&data[0..32], &palette[..]);
    // Each later row is the one above rotated right by four bytes.
    for y in 1..8usize {
        for i in 0..32usize {
            assert_eq!(data[y * 32 + i], data[(y - 1) * 32 + (i + 28) % 32]);
        }
    }
    // Spot check: the first pixel of row 1 is palette byte 28.
    assert_eq!(data[32], palette[28]);
}

//! The tick-level subsystem: the periodic spawn scheduler, the registry of
//! live objects with its per-tick orchestration (spawn, update, cull), and
//! the procedural debug texture.

use vstd::prelude::*;
use vstd::arithmetic::div_mod::lemma_fundamental_div_mod_converse;
use crate::space_objects::state::{projected_state, initial_transform, ObjectState, DT_MAX, FOV_MAX};
use crate::space_objects::{
    create, despawn_now, spec_despawn_now, with_st, SpaceKind, SpaceThing, SpaceThingTrait,
    SpawnRanges,
};
use crate::space_objects::state::{after_location, location_after, orientation_after};
use crate::transform::Transform;
use crate::SpaceError;

verus! {

/// The periodic spawn scheduler: a new object is due whenever the cumulative
/// elapsed time, reduced modulo `interval`, falls inside the opening
/// `window`. Purely a function of total elapsed time; if one tick's delta
/// jumps over the whole window, that spawn is silently missed (acceptable
/// for a decorative animation — no exactly-once guarantee is made).
#[derive(Clone, Copy, Debug, PartialEq, Eq, Structural)]
pub struct SpawnSchedule {
    /// Period between spawn opportunities, micro-seconds.
    pub interval: u64,
    /// Width of the spawn window at each period start, micro-seconds.
    pub window: u64,
}

impl SpawnSchedule {
    /// The period is positive, so the modulo is meaningful.
    pub open spec fn valid(self) -> bool {
        self.interval > 0
    }

    /// Whether a spawn is due at cumulative time `elapsed`.
    pub open spec fn spec_due(self, elapsed: int) -> bool {
        elapsed % (self.interval as int) <= self.window
    }

    /// The default configuration: every 2.5 s, window 0.0303 s.
    pub fn standard() -> (s: SpawnSchedule)
        ensures
            s == (SpawnSchedule { interval: 2_500_000, window: 30_300 }),
            s.valid(),
    {
        SpawnSchedule { interval: 2_500_000, window: 30_300 }
    }

    /// The other observed configuration: every 3 s, window 0.04 s.
    pub fn relaxed() -> (s: SpawnSchedule)
        ensures
            s == (SpawnSchedule { interval: 3_000_000, window: 40_000 }),
            s.valid(),
    {
        SpawnSchedule { interval: 3_000_000, window: 40_000 }
    }

    /// Evaluate the schedule at cumulative time `elapsed` micro-seconds.
    pub fn is_spawn_due(&self, elapsed: u64) -> (r: bool)
        requires
            self.valid(),
        ensures
            r == self.spec_due(elapsed as int),
    {
        elapsed % self.interval <= self.window
    }
}

/// Whether the default schedule is due at cumulative time `elapsed`.
pub fn time_to_spawn(elapsed: u64) -> (r: bool)
    ensures
        r == (elapsed as int % 2_500_000 <= 30_300),
{
    let s = SpawnSchedule::standard();
    s.is_spawn_due(elapsed)
}

/// One live entry of the registry: a space thing and the transform the host
/// renders it with.
#[derive(Clone, Copy, Debug)]
pub struct LiveObject {
    pub thing: SpaceThing,
    pub transform: Transform,
}

/// A live entry is well formed: its state is projected and within the
/// engine's caps, and its transform's spin angles are reduced.
pub open spec fn lo_wf(o: LiveObject) -> bool {
    &&& o.thing.st().wf()
    &&& o.thing.st().projected
    &&& o.transform.wf()
}

/// One live entry after one tick's update phase: orientation advanced first,
/// then location.
pub open spec fn upd_live(o: LiveObject, dt: int) -> LiveObject {
    LiveObject {
        thing: with_st(o.thing, after_location(o.thing.st(), dt)),
        transform: location_after(
            o.thing.st(),
            dt,
            orientation_after(o.thing.st(), dt, o.transform),
        ),
    }
}

/// Whether the cull phase keeps a live entry.
pub open spec fn keep_live(o: LiveObject) -> bool {
    !spec_despawn_now(o.thing, o.transform)
}

/// A whole registry pass over `s`: every entry updated by `dt`, and exactly
/// those not due for despawn kept, in order.
pub open spec fn advanced(s: Seq<LiveObject>, dt: int) -> Seq<LiveObject>
    decreases s.len(),
{
    if s.len() == 0 {
        Seq::empty()
    } else {
        let rest = advanced(s.drop_last(), dt);
        let o = upd_live(s.last(), dt);
        if keep_live(o) {
            rest.push(o)
        } else {
            rest
        }
    }
}

/// Unfold one step of `advanced` at the end of a sequence.
proof fn lemma_advanced_push(s: Seq<LiveObject>, x: LiveObject, dt: int)
    ensures
        advanced(s.push(x), dt) == if keep_live(upd_live(x, dt)) {
            advanced(s, dt).push(upd_live(x, dt))
        } else {
            advanced(s, dt)
        },
{
    assert(s.push(x).drop_last() =~= s);
}

/// The entry `nl` is what one spawn phase can produce: some descriptor drawn
/// from `ranges`, of the requested kind, passed once through projection
/// setup at `fov`.
pub open spec fn valid_spawn(
    nl: LiveObject,
    kind: SpaceKind,
    ranges: SpawnRanges,
    fov: int,
) -> bool {
    exists|d: ObjectState|
        {
            &&& #[trigger] d.wf_descriptor()
            &&& ranges.holds_for(d)
            &&& nl.thing.st() == projected_state(d, fov)
            &&& nl.transform == initial_transform(d, fov)
            &&& (nl.thing is Asteroid <==> kind is Asteroid)
        }
}

/// The object registry and tick loop: evaluates the scheduler, spawns and
/// projects a new object when one is due, advances every live object, and
/// culls those past the despawn rule — strictly in that order, once per
/// tick.
#[derive(Debug)]
pub struct SpaceStuff {
    /// When new objects become due.
    pub schedule: SpawnSchedule,
    /// The kind the spawn phase creates.
    pub kind: SpaceKind,
    /// The parameter ranges the factory draws from.
    pub ranges: SpawnRanges,
    /// The field-of-view distance every new object is projected with.
    pub fov: i64,
    /// The live objects, in spawn order.
    pub things: Vec<LiveObject>,
}

impl SpaceStuff {
    /// The configuration the registry was built with is usable.
    pub open spec fn config_wf(self) -> bool {
        &&& self.schedule.valid()
        &&& self.ranges.ordered()
        &&& self.ranges.bounded()
        &&& 0 < self.fov <= FOV_MAX
    }

    /// The registry and every live entry are well formed.
    pub open spec fn wf(self) -> bool {
        &&& self.config_wf()
        &&& forall|j: int| 0 <= j < self.things@.len() ==> lo_wf(#[trigger] self.things@[j])
    }

    /// Wire the subsystem: check the configuration once and start with no
    /// live objects. Fails with a configuration error exactly when a range
    /// is empty or inverted, and with a domain error exactly when the
    /// field of view is not positive.
    pub fn build(schedule: SpawnSchedule, kind: SpaceKind, ranges: SpawnRanges, fov: i64) -> (r:
        Result<SpaceStuff, SpaceError>)
        requires
            ranges.bounded(),
            fov <= FOV_MAX,
            schedule.valid(),
        ensures
            r is Ok <==> (ranges.ordered() && fov > 0),
            !ranges.ordered() ==> r == Err::<SpaceStuff, SpaceError>(SpaceError::Configuration),
            ranges.ordered() && fov <= 0 ==> r == Err::<SpaceStuff, SpaceError>(SpaceError::Domain),
            r is Ok ==> {
                &&& r->Ok_0.schedule == schedule
                &&& r->Ok_0.kind == kind
                &&& r->Ok_0.ranges == ranges
                &&& r->Ok_0.fov == fov
                &&& r->Ok_0.things@.len() == 0
                &&& r->Ok_0.wf()
            },
    {
        match ranges.validate() {
            Ok(()) => {
                if fov > 0 {
                    Ok(SpaceStuff { schedule, kind, ranges, fov, things: Vec::new() })
                } else {
                    Err(SpaceError::Domain)
                }
            },
            Err(e) => Err(e),
        }
    }

    /// One tick: spawn if due, advance every live object (the new one
    /// included), cull what is out of view. The result is exactly one
    /// registry pass over the old entries — plus, when a spawn was due, one
    /// freshly drawn and projected object of the configured kind.
    pub fn tick(&mut self, elapsed: u64, dt: u64)
        requires
            old(self).wf(),
            dt <= DT_MAX,
        ensures
            final(self).wf(),
            final(self).schedule == old(self).schedule,
            final(self).kind == old(self).kind,
            final(self).ranges == old(self).ranges,
            final(self).fov == old(self).fov,
            old(self).schedule.spec_due(elapsed as int) ==> exists|nl: LiveObject|
                {
                    &&& #[trigger] valid_spawn(
                        nl,
                        old(self).kind,
                        old(self).ranges,
                        old(self).fov as int,
                    )
                    &&& lo_wf(nl)
                    &&& final(self).things@ == advanced(old(self).things@.push(nl), dt as int)
                },
            !old(self).schedule.spec_due(elapsed as int) ==> final(self).things@ == advanced(
                old(self).things@,
                dt as int,
            ),
    {
        if self.schedule.is_spawn_due(elapsed) {
            let created = create(self.kind, &self.ranges);
            match created {
                Ok(mut thing) => {
                    let ghost descriptor = thing.st();
                    let set_up = thing.initialize_transform(self.fov);
                    match set_up {
                        Ok(tr) => {
                            let nl = LiveObject { thing, transform: tr };
                            proof {
                                assert(valid_spawn(nl, self.kind, self.ranges, self.fov as int))
                                    by {
                                    assert(descriptor.wf_descriptor());
                                    assert(nl.thing.st() == projected_state(
                                        descriptor,
                                        self.fov as int,
                                    ));
                                    assert(nl.transform == initial_transform(
                                        descriptor,
                                        self.fov as int,
                                    ));
                                }
                                assert(lo_wf(nl));
                            }
                            self.things.push(nl);
                        },
                        Err(_) => {
                            proof {
                                assert(false);
                            }
                        },
                    }
                },
                Err(_) => {
                    proof {
                        assert(false);
                    }
                },
            }
        }
        let ghost base = self.things@;
        let mut next: Vec<LiveObject> = Vec::new();
        let count = self.things.len();
        let mut i: usize = 0;
        while i < count
            invariant
                0 <= i <= count,
                count == self.things@.len(),
                self.things@ == base,
                dt <= DT_MAX,
                forall|j: int| 0 <= j < base.len() ==> lo_wf(#[trigger] base[j]),
                next@ == advanced(base.subrange(0, i as int), dt as int),
                forall|j: int| 0 <= j < next@.len() ==> lo_wf(#[trigger] next@[j]),
            decreases count - i,
        {
            let mut o: LiveObject = self.things[i];
            o.thing.update_orientation(dt, &mut o.transform);
            o.thing.update_location(dt, &mut o.transform);
            proof {
                assert(o == upd_live(base[i as int], dt as int));
                assert(base.subrange(0, i as int).push(base[i as int]) =~= base.subrange(
                    0,
                    i as int + 1,
                ));
                lemma_advanced_push(base.subrange(0, i as int), base[i as int], dt as int);
            }
            if !despawn_now(&o.thing, &o.transform) {
                next.push(o);
            }
            i += 1;
        }
        proof {
            assert(base.subrange(0, base.len() as int) =~= base);
        }
        self.things = next;
    }
}

/// The 32-byte color palette of the debug test pattern.
pub open spec fn palette_spec() -> Seq<u8> {
    seq![
        255u8, 102, 159, 255, 255, 159, 102, 255, 236, 255, 102, 255, 121, 255, 102, 255, 102,
        255, 198, 255, 102, 198, 255, 255, 121, 102, 255, 255, 236, 102, 255, 255,
    ]
}

/// The raw pixel bytes of the colorful 8-by-8 debug test pattern: each row
/// holds the palette rotated right by four bytes once more than the row
/// above it. The host wraps these bytes in its own image type.
pub fn uv_debug_texture_data() -> (data: Vec<u8>)
    ensures
        data@.len() == 256,
        forall|j: int|
            0 <= j < 256 ==> data@[j] == palette_spec()[((j % 32) + 28 * (j / 32)) % 32],
{
    let palette: Vec<u8> = vec![
        255, 102, 159, 255, 255, 159, 102, 255, 236, 255, 102, 255, 121, 255, 102, 255, 102, 255,
        198, 255, 102, 198, 255, 255, 121, 102, 255, 255, 236, 102, 255, 255,
    ];
    proof {
        assert(palette@ =~= palette_spec());
    }
    let mut data: Vec<u8> = Vec::new();
    let mut y: usize = 0;
    while y < 8
        invariant
            0 <= y <= 8,
            palette@ == palette_spec(),
            data@.len() == y * 32,
            forall|j: int|
                0 <= j < data@.len() ==> data@[j] == palette_spec()[((j % 32) + 28 * (j / 32))
                    % 32],
        decreases 8 - y,
    {
        let mut i: usize = 0;
        while i < 32
            invariant
                0 <= y < 8,
                0 <= i <= 32,
                palette@ == palette_spec(),
                data@.len() == y * 32 + i,
            forall|j: int|
                0 <= j < data@.len() ==> data@[j] == palette_spec()[((j % 32) + 28 * (j / 32))
                    % 32],
            decreases 32 - i,
        {
            let idx: usize = (i + 28 * y) % 32;
            data.push(palette[idx]);
            proof {
                lemma_fundamental_div_mod_converse(
                    (y * 32 + i) as int,
                    32,
                    y as int,
                    i as int,
                );
            }
            i = i + 1;
        }
        y = y + 1;
    }
    data
}

} // verus!

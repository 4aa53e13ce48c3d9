//! The entity table and the rules of a frame, each applied to every entity
//! that has the fields it needs.
use vstd::prelude::*;

use crate::input::{axis, sample_direction, Keys};
use crate::motion::{
    advance_fits, after_friction, control_velocity, controlled, fits_i64, friction_velocity,
    integrate_position, integrated_x, integrated_y, jitter, jitter_of, speed_bounded, speed_gain, step,
};
use crate::vector::{Vec2, LENGTH_BOUND};

verus! {

/// Relies on `rand::random`: a value drawn from the thread-local generator.
/// Nothing is promised of it beyond its type; the shake rule turns a `u32`
/// draw into a fraction in `[0, 1)`.
pub assume_specification<T>[ rand::random::<T> ]() -> (r: T)
    where
        rand::distributions::Standard: rand::distributions::Distribution<T>,
;

/// One row of the entity table. A field that is `None` is absent, and the
/// rules that need it pass the entity by.
#[derive(Clone, Copy, Debug, PartialEq, Eq, Structural)]
pub struct Entity {
    pub position: Option<Vec2>,
    pub velocity: Option<Vec2>,
    pub max_speed: Option<u64>,
    pub acceleration: Option<u64>,
    pub shake_amplitude: Option<u64>,
    pub is_player: bool,
    /// What the presentation layer draws; written only by the display rules.
    pub visual: Option<Vec2>,
}

/// The entity table, in order of insertion, and the friction that slows
/// every moving entity.
pub struct World {
    pub entities: Vec<Entity>,
    pub friction: u64,
}

/// An entity whose velocity and speed cap the steering and friction rules
/// can work on.
pub open spec fn entity_wf(e: Entity) -> bool {
    &&& (e.velocity matches Some(v) ==> speed_bounded(v))
    &&& (e.max_speed matches Some(m) ==> m <= LENGTH_BOUND)
}

/// The direction that the keys ask for, as `sample_direction` returns it.
pub open spec fn direction_of(keys: Keys) -> Vec2 {
    Vec2 { x: axis(keys.right, keys.left) as i64, y: axis(keys.up, keys.down) as i64 }
}

/// Display rule for entities that do not shake: the visual takes the position.
pub open spec fn synced(e: Entity) -> Entity {
    if e.position is Some && e.visual is Some && e.shake_amplitude is None {
        Entity { visual: e.position, ..e }
    } else {
        e
    }
}

/// Display rule for shaking entities, with the two draws of this entity.
pub open spec fn shaken(e: Entity, dx: int, dy: int) -> Entity {
    if e.position is Some && e.visual is Some && e.shake_amplitude is Some {
        let p = e.position->Some_0;
        let a = e.shake_amplitude->Some_0 as int;
        Entity {
            visual: Some(Vec2 { x: (p.x + jitter_of(a, dx)) as i64, y: (p.y + jitter_of(a, dy)) as i64 }),
            ..e
        }
    } else {
        e
    }
}

/// What holds of the display rule for shaking entities whatever was drawn:
/// only the visual changes, and it lies at the position plus an offset of at
/// least zero and below the amplitude (at most zero for a zero amplitude) on
/// each axis.
pub open spec fn jittered(e: Entity, r: Entity) -> bool {
    if e.position is Some && e.visual is Some && e.shake_amplitude is Some {
        let p = e.position->Some_0;
        let a = e.shake_amplitude->Some_0 as int;
        &&& r.visual is Some
        &&& r == (Entity { visual: r.visual, ..e })
        &&& p.x <= r.visual->Some_0.x <= p.x + a
        &&& p.y <= r.visual->Some_0.y <= p.y + a
        &&& a > 0 ==> r.visual->Some_0.x < p.x + a && r.visual->Some_0.y < p.y + a
    } else {
        r == e
    }
}

/// The position of a shaking entity leaves room for its amplitude.
pub open spec fn shake_fits(e: Entity) -> bool {
    (e.position is Some && e.shake_amplitude is Some) ==> fits_i64(
        e.position->Some_0.x + e.shake_amplitude->Some_0,
    ) && fits_i64(e.position->Some_0.y + e.shake_amplitude->Some_0)
}

/// Position rule: an entity with a position and a velocity moves.
pub open spec fn integrated(e: Entity, dt: u64) -> Entity {
    if e.position is Some && e.velocity is Some {
        let p = e.position->Some_0;
        let v = e.velocity->Some_0;
        Entity {
            position: Some(Vec2 { x: integrated_x(p, v, dt) as i64, y: integrated_y(p, v, dt) as i64 }),
            ..e
        }
    } else {
        e
    }
}

/// The new position of a moving entity fits the machine.
pub open spec fn move_fits(e: Entity, dt: u64) -> bool {
    (e.position is Some && e.velocity is Some) ==> fits_i64(
        integrated_x(e.position->Some_0, e.velocity->Some_0, dt),
    ) && fits_i64(integrated_y(e.position->Some_0, e.velocity->Some_0, dt))
}

/// The entity is steered by the keys.
pub open spec fn is_steered(e: Entity) -> bool {
    e.is_player && e.velocity is Some && e.max_speed is Some && e.acceleration is Some
}

/// Steering rule.
pub open spec fn steered(e: Entity, dir: Vec2, dt: u64) -> Entity {
    if is_steered(e) {
        Entity {
            velocity: Some(
                controlled(
                    e.velocity->Some_0,
                    e.max_speed->Some_0,
                    e.acceleration->Some_0,
                    dir,
                    dt,
                ),
            ),
            ..e
        }
    } else {
        e
    }
}

/// The speed that a steered entity may gain in one frame fits the
/// arithmetic.
pub open spec fn gain_fits(e: Entity, dt: u64) -> bool {
    is_steered(e) ==> step(e.acceleration->Some_0 as int, dt as int) <= LENGTH_BOUND
}

/// Friction rule.
pub open spec fn slowed(e: Entity, friction: u64, dt: u64) -> Entity {
    if e.velocity is Some {
        Entity { velocity: Some(after_friction(e.velocity->Some_0, friction, dt)), ..e }
    } else {
        e
    }
}

/// The rules after the display rules, in their order: position, steering,
/// friction.
pub open spec fn moved(e: Entity, dir: Vec2, friction: u64, dt: u64) -> Entity {
    slowed(steered(integrated(e, dt), dir, dt), friction, dt)
}

/// One frame for one entity: `r` is `e` with the display rules and then the
/// motion rules applied, whatever the shaking entities drew.
pub open spec fn frame_step(e: Entity, r: Entity, dir: Vec2, friction: u64, dt: u64) -> bool {
    let s = synced(e);
    &&& jittered(s, Entity { visual: r.visual, ..s })
    &&& r == (Entity { visual: r.visual, ..moved(s, dir, friction, dt) })
}

impl Entity {
    /// An entity with no fields.
    pub fn new() -> (r: Entity)
        ensures
            r.position is None && r.velocity is None && r.max_speed is None,
            r.acceleration is None && r.shake_amplitude is None && r.visual is None,
            !r.is_player,
    {
        Entity {
            position: None,
            velocity: None,
            max_speed: None,
            acceleration: None,
            shake_amplitude: None,
            is_player: false,
            visual: None,
        }
    }
}

/// Whether one frame can run on `e`: what `run_frame` asks of each entity.
pub open spec fn frame_fits(e: Entity, dt: u64) -> bool {
    &&& entity_wf(e)
    &&& shake_fits(e)
    &&& move_fits(e, dt)
    &&& gain_fits(e, dt)
}

/// `frame_fits` on machine integers.
pub fn entity_frame_fits(e: Entity, dt: u64) -> (r: bool)
    ensures
        r == frame_fits(e, dt),
{
    if let Some(v) = e.velocity {
        if v.x < -(LENGTH_BOUND as i64) || v.x > LENGTH_BOUND as i64 || v.y < -(LENGTH_BOUND as i64)
            || v.y > LENGTH_BOUND as i64 {
            return false;
        }
    }
    if let Some(m) = e.max_speed {
        if m > LENGTH_BOUND {
            return false;
        }
    }
    if let (Some(p), Some(a)) = (e.position, e.shake_amplitude) {
        if p.x as i128 + a as i128 > i64::MAX as i128 || p.y as i128 + a as i128 > i64::MAX as i128 {
            return false;
        }
    }
    if let (Some(p), Some(v)) = (e.position, e.velocity) {
        if !advance_fits(p.x, v.x, dt) || !advance_fits(p.y, v.y, dt) {
            return false;
        }
    }
    if e.is_player && e.velocity.is_some() && e.max_speed.is_some() {
        if let Some(a) = e.acceleration {
            if speed_gain(a, dt) > LENGTH_BOUND as u128 {
                return false;
            }
        }
    }
    true
}

fn sync_entity(e: Entity) -> (r: Entity)
    ensures
        r == synced(e),
{
    if e.position.is_some() && e.visual.is_some() && e.shake_amplitude.is_none() {
        Entity { visual: e.position, ..e }
    } else {
        e
    }
}

fn shake_entity(e: Entity, dx: u32, dy: u32) -> (r: Entity)
    requires
        shake_fits(e),
    ensures
        r == shaken(e, dx as int, dy as int),
        jittered(e, r),
{
    match (e.position, e.visual, e.shake_amplitude) {
        (Some(p), Some(_), Some(a)) => {
            let jx = jitter(a, dx);
            let jy = jitter(a, dy);
            Entity { visual: Some(Vec2 { x: (p.x as i128 + jx as i128) as i64, y: (p.y as i128 + jy as i128) as i64 }), ..e }
        },
        _ => e,
    }
}

fn integrate_entity(e: Entity, dt: u64) -> (r: Entity)
    requires
        move_fits(e, dt),
    ensures
        r == integrated(e, dt),
{
    match (e.position, e.velocity) {
        (Some(p), Some(v)) => Entity { position: Some(integrate_position(p, v, dt)), ..e },
        _ => e,
    }
}

fn steer_entity(e: Entity, dir: Vec2, dt: u64) -> (r: Entity)
    requires
        entity_wf(e),
        gain_fits(e, dt),
        -1 <= dir.x <= 1 && -1 <= dir.y <= 1,
    ensures
        r == steered(e, dir, dt),
        entity_wf(r),
{
    if !e.is_player {
        return e;
    }
    match (e.velocity, e.max_speed, e.acceleration) {
        (Some(v), Some(m), Some(a)) => Entity {
            velocity: Some(control_velocity(v, m, a, dir, dt)),
            ..e
        },
        _ => e,
    }
}

fn slow_entity(e: Entity, friction: u64, dt: u64) -> (r: Entity)
    requires
        entity_wf(e),
    ensures
        r == slowed(e, friction, dt),
        entity_wf(r),
{
    match e.velocity {
        Some(v) => Entity { velocity: Some(friction_velocity(v, friction, dt)), ..e },
        None => e,
    }
}

impl World {
    /// Every entity is well formed.
    pub open spec fn wf(&self) -> bool {
        forall|i: int| 0 <= i < self.entities@.len() ==> #[trigger] entity_wf(self.entities@[i])
    }

    /// An empty table with the given friction.
    pub fn new(friction: u64) -> (r: World)
        ensures
            r.entities@.len() == 0,
            r.friction == friction,
            r.wf(),
    {
        World { entities: Vec::new(), friction }
    }

    /// Adds an entity at the end of the table and returns its index.
    pub fn spawn(&mut self, e: Entity) -> (r: usize)
        requires
            old(self).wf(),
            entity_wf(e),
        ensures
            final(self).entities@ == old(self).entities@.push(e),
            final(self).friction == old(self).friction,
            r == old(self).entities@.len(),
            final(self).wf(),
    {
        let r = self.entities.len();
        self.entities.push(e);
        r
    }

    /// Display rule for entities that do not shake.
    pub fn sync_visuals(&mut self)
        ensures
            final(self).entities@.len() == old(self).entities@.len(),
            final(self).friction == old(self).friction,
            forall|i: int|
                0 <= i < old(self).entities@.len() ==> final(self).entities@[i] == synced(
                    #[trigger] old(self).entities@[i],
                ),
    {
        let n = self.entities.len();
        let mut i: usize = 0;
        while i < n
            invariant
                n == old(self).entities@.len(),
                self.entities@.len() == n,
                self.friction == old(self).friction,
                i <= n,
                forall|j: int| 0 <= j < i ==> self.entities@[j] == synced(#[trigger] old(self).entities@[j]),
                forall|j: int| i <= j < n ==> #[trigger] self.entities@[j] == old(self).entities@[j],
            decreases n - i,
        {
            let e = sync_entity(self.entities[i]);
            self.entities.set(i, e);
            i += 1;
        }
    }

    /// Display rule for shaking entities, with the draws given: entity `i`
    /// takes `draws[i]` for its two axes.
    pub fn shake_visuals_with(&mut self, draws: &Vec<(u32, u32)>)
        requires
            draws@.len() == old(self).entities@.len(),
            forall|i: int| 0 <= i < old(self).entities@.len() ==> #[trigger] shake_fits(old(self).entities@[i]),
        ensures
            final(self).entities@.len() == old(self).entities@.len(),
            final(self).friction == old(self).friction,
            forall|i: int|
                0 <= i < old(self).entities@.len() ==> final(self).entities@[i] == shaken(
                    #[trigger] old(self).entities@[i],
                    draws@[i].0 as int,
                    draws@[i].1 as int,
                ),
    {
        let n = self.entities.len();
        let mut i: usize = 0;
        while i < n
            invariant
                n == old(self).entities@.len(),
                n == draws@.len(),
                self.entities@.len() == n,
                self.friction == old(self).friction,
                i <= n,
                forall|j: int| 0 <= j < n ==> #[trigger] shake_fits(old(self).entities@[j]),
                forall|j: int|
                    0 <= j < i ==> self.entities@[j] == shaken(
                        #[trigger] old(self).entities@[j],
                        draws@[j].0 as int,
                        draws@[j].1 as int,
                    ),
                forall|j: int| i <= j < n ==> #[trigger] self.entities@[j] == old(self).entities@[j],
            decreases n - i,
        {
            let (dx, dy) = draws[i];
            let e = shake_entity(self.entities[i], dx, dy);
            self.entities.set(i, e);
            i += 1;
        }
    }

    /// Display rule for shaking entities: each one draws two random numbers.
    pub fn shake_visuals(&mut self)
        requires
            forall|i: int| 0 <= i < old(self).entities@.len() ==> #[trigger] shake_fits(old(self).entities@[i]),
        ensures
            final(self).entities@.len() == old(self).entities@.len(),
            final(self).friction == old(self).friction,
            forall|i: int|
                0 <= i < old(self).entities@.len() ==> jittered(
                    #[trigger] old(self).entities@[i],
                    final(self).entities@[i],
                ),
    {
        let n = self.entities.len();
        let mut i: usize = 0;
        while i < n
            invariant
                n == old(self).entities@.len(),
                self.entities@.len() == n,
                self.friction == old(self).friction,
                i <= n,
                forall|j: int| 0 <= j < n ==> #[trigger] shake_fits(old(self).entities@[j]),
                forall|j: int| 0 <= j < i ==> jittered(#[trigger] old(self).entities@[j], self.entities@[j]),
                forall|j: int| i <= j < n ==> #[trigger] self.entities@[j] == old(self).entities@[j],
            decreases n - i,
        {
            let e = self.entities[i];
            if e.shake_amplitude.is_some() {
                let dx: u32 = rand::random::<u32>();
                let dy: u32 = rand::random::<u32>();
                self.entities.set(i, shake_entity(e, dx, dy));
            } else {
                self.entities.set(i, shake_entity(e, 0, 0));
            }
            i += 1;
        }
    }

    /// Position rule for every entity with a position and a velocity.
    pub fn integrate_positions(&mut self, dt: u64)
        requires
            forall|i: int| 0 <= i < old(self).entities@.len() ==> #[trigger] move_fits(old(self).entities@[i], dt),
        ensures
            final(self).entities@.len() == old(self).entities@.len(),
            final(self).friction == old(self).friction,
            forall|i: int|
                0 <= i < old(self).entities@.len() ==> final(self).entities@[i] == integrated(
                    #[trigger] old(self).entities@[i],
                    dt,
                ),
    {
        let n = self.entities.len();
        let mut i: usize = 0;
        while i < n
            invariant
                n == old(self).entities@.len(),
                self.entities@.len() == n,
                self.friction == old(self).friction,
                i <= n,
                forall|j: int| 0 <= j < n ==> #[trigger] move_fits(old(self).entities@[j], dt),
                forall|j: int| 0 <= j < i ==> self.entities@[j] == integrated(#[trigger] old(self).entities@[j], dt),
                forall|j: int| i <= j < n ==> #[trigger] self.entities@[j] == old(self).entities@[j],
            decreases n - i,
        {
            let e = integrate_entity(self.entities[i], dt);
            self.entities.set(i, e);
            i += 1;
        }
    }

    /// Steering rule for every player entity with a velocity, a speed cap and
    /// an acceleration; the keys are sampled once for the frame.
    pub fn steer_players(&mut self, keys: Keys, dt: u64)
        requires
            old(self).wf(),
            forall|i: int| 0 <= i < old(self).entities@.len() ==> #[trigger] gain_fits(old(self).entities@[i], dt),
        ensures
            final(self).entities@.len() == old(self).entities@.len(),
            final(self).friction == old(self).friction,
            final(self).wf(),
            forall|i: int|
                0 <= i < old(self).entities@.len() ==> final(self).entities@[i] == steered(
                    #[trigger] old(self).entities@[i],
                    direction_of(keys),
                    dt,
                ),
    {
        let dir = sample_direction(keys);
        let n = self.entities.len();
        let mut i: usize = 0;
        while i < n
            invariant
                n == old(self).entities@.len(),
                self.entities@.len() == n,
                self.friction == old(self).friction,
                i <= n,
                dir == direction_of(keys),
                -1 <= dir.x <= 1 && -1 <= dir.y <= 1,
                old(self).wf(),
                forall|j: int| 0 <= j < n ==> #[trigger] gain_fits(old(self).entities@[j], dt),
                forall|j: int|
                    0 <= j < i ==> self.entities@[j] == steered(#[trigger] old(self).entities@[j], dir, dt),
                forall|j: int| 0 <= j < i ==> #[trigger] entity_wf(self.entities@[j]),
                forall|j: int| i <= j < n ==> #[trigger] self.entities@[j] == old(self).entities@[j],
            decreases n - i,
        {
            assert(entity_wf(old(self).entities@[i as int]));
            let e = steer_entity(self.entities[i], dir, dt);
            self.entities.set(i, e);
            i += 1;
        }
        assert forall|j: int| 0 <= j < n implies #[trigger] entity_wf(self.entities@[j]) by {
            assert(entity_wf(self.entities@[j]));
        }
    }

    /// Friction rule for every entity with a velocity.
    pub fn apply_friction(&mut self, dt: u64)
        requires
            old(self).wf(),
        ensures
            final(self).entities@.len() == old(self).entities@.len(),
            final(self).friction == old(self).friction,
            final(self).wf(),
            forall|i: int|
                0 <= i < old(self).entities@.len() ==> final(self).entities@[i] == slowed(
                    #[trigger] old(self).entities@[i],
                    old(self).friction,
                    dt,
                ),
    {
        let n = self.entities.len();
        let f = self.friction;
        let mut i: usize = 0;
        while i < n
            invariant
                n == old(self).entities@.len(),
                self.entities@.len() == n,
                self.friction == old(self).friction,
                f == self.friction,
                i <= n,
                old(self).wf(),
                forall|j: int| 0 <= j < i ==> self.entities@[j] == slowed(#[trigger] old(self).entities@[j], f, dt),
                forall|j: int| 0 <= j < i ==> #[trigger] entity_wf(self.entities@[j]),
                forall|j: int| i <= j < n ==> #[trigger] self.entities@[j] == old(self).entities@[j],
            decreases n - i,
        {
            assert(entity_wf(old(self).entities@[i as int]));
            let e = slow_entity(self.entities[i], f, dt);
            self.entities.set(i, e);
            i += 1;
        }
    }

    /// Whether `run_frame` can run with this elapsed time.
    pub fn can_run_frame(&self, dt: u64) -> (r: bool)
        ensures
            r == (forall|i: int| 0 <= i < self.entities@.len() ==> #[trigger] frame_fits(self.entities@[i], dt)),
    {
        let n = self.entities.len();
        let mut i: usize = 0;
        while i < n
            invariant
                n == self.entities@.len(),
                i <= n,
                forall|j: int| 0 <= j < i ==> #[trigger] frame_fits(self.entities@[j], dt),
            decreases n - i,
        {
            if !entity_frame_fits(self.entities[i], dt) {
                return false;
            }
            i += 1;
        }
        true
    }

    /// Runs a frame where `can_run_frame` allows it, and says whether it ran;
    /// otherwise the table is left as it is.
    pub fn try_run_frame(&mut self, keys: Keys, dt: u64) -> (r: bool)
        ensures
            r == (forall|i: int| 0 <= i < old(self).entities@.len() ==> #[trigger] frame_fits(old(self).entities@[i], dt)),
            final(self).entities@.len() == old(self).entities@.len(),
            final(self).friction == old(self).friction,
            !r ==> final(self).entities@ == old(self).entities@,
            r ==> forall|i: int|
                0 <= i < old(self).entities@.len() ==> frame_step(
                    #[trigger] old(self).entities@[i],
                    final(self).entities@[i],
                    direction_of(keys),
                    old(self).friction,
                    dt,
                ),
    {
        if !self.can_run_frame(dt) {
            return false;
        }
        self.run_frame(keys, dt);
        true
    }

    /// One frame: the display rules, then the position, steering and friction
    /// rules, each over the whole table before the next. The visuals show the
    /// positions from before this frame's motion.
    pub fn run_frame(&mut self, keys: Keys, dt: u64)
        requires
            forall|i: int| 0 <= i < old(self).entities@.len() ==> #[trigger] frame_fits(old(self).entities@[i], dt),
        ensures
            final(self).entities@.len() == old(self).entities@.len(),
            final(self).friction == old(self).friction,
            final(self).wf(),
            forall|i: int|
                0 <= i < old(self).entities@.len() ==> frame_step(
                    #[trigger] old(self).entities@[i],
                    final(self).entities@[i],
                    direction_of(keys),
                    old(self).friction,
                    dt,
                ),
    {
        let ghost s0 = self.entities@;
        self.sync_visuals();
        let ghost s1 = self.entities@;
        assert forall|i: int| 0 <= i < s1.len() implies #[trigger] shake_fits(s1[i]) by {
            assert(frame_fits(s0[i], dt));
        }
        self.shake_visuals();
        let ghost s2 = self.entities@;
        assert forall|i: int| 0 <= i < s2.len() implies #[trigger] move_fits(s2[i], dt) by {
            assert(frame_fits(s0[i], dt));
            assert(s1[i] == synced(s0[i]));
            assert(jittered(s1[i], s2[i]));
        }
        self.integrate_positions(dt);
        let ghost s3 = self.entities@;
        assert forall|i: int| 0 <= i < s3.len() implies gain_fits(s3[i], dt) && #[trigger] entity_wf(s3[i]) by {
            assert(frame_fits(s0[i], dt));
            assert(s1[i] == synced(s0[i]));
            assert(jittered(s1[i], s2[i]));
            assert(s3[i] == integrated(s2[i], dt));
        }
        assert forall|i: int| 0 <= i < s3.len() implies #[trigger] gain_fits(s3[i], dt) by {
            assert(entity_wf(s3[i]));
        }
        self.steer_players(keys, dt);
        self.apply_friction(dt);
        assert forall|i: int| 0 <= i < s0.len() implies frame_step(
            #[trigger] s0[i],
            self.entities@[i],
            direction_of(keys),
            old(self).friction,
            dt,
        ) by {
            assert(s1[i] == synced(s0[i]));
            assert(jittered(s1[i], s2[i]));
            assert(s3[i] == integrated(s2[i], dt));
        }
    }
}

} // verus!

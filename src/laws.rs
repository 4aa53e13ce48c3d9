//! Laws that relate the rules of a frame.
use vstd::prelude::*;

use crate::motion::displacement;
use crate::vector::Vec2;
use crate::world::{frame_step, integrated, Entity};

verus! {

/// The position rule applied `n` times with the same elapsed time.
pub open spec fn integrated_times(e: Entity, dt: u64, n: nat) -> Entity
    decreases n,
{
    if n == 0 {
        e
    } else {
        integrated(integrated_times(e, dt, (n - 1) as nat), dt)
    }
}

/// An entity at rest stays where it is, however often the position rule runs.
pub proof fn lemma_rest_is_kept(e: Entity, dt: u64, n: nat)
    requires
        e.velocity == Some(Vec2 { x: 0, y: 0 }),
    ensures
        integrated_times(e, dt, n) == e,
    decreases n,
{
    if n > 0 {
        lemma_rest_is_kept(e, dt, (n - 1) as nat);
        assert(0 * (dt as int) == 0);
        assert(displacement(0, dt as int) == 0);
        if e.position is Some {
            let p = e.position->Some_0;
            assert(integrated(e, dt).position == Some(Vec2 { x: p.x, y: p.y }));
        }
    }
}

/// A frame without elapsed time leaves the position of an entity that is
/// neither a player nor moving as it was; so is its visual, when the entity
/// does not shake and its visual already showed its position.
pub proof fn lemma_still_entity_unchanged(e: Entity, r: Entity, dir: Vec2, friction: u64)
    requires
        frame_step(e, r, dir, friction, 0),
        !e.is_player,
        e.velocity is None,
    ensures
        r.position == e.position,
        (e.shake_amplitude is None && (e.visual is None || e.visual == e.position)) ==> r.visual
            == e.visual,
{
}

/// The visual of an entity that does not shake shows, after a frame, the
/// position it had before the frame: the display rules run before the motion
/// rules, so the picture lags one frame behind.
pub proof fn lemma_visual_lags_one_frame(e: Entity, r: Entity, dir: Vec2, friction: u64, dt: u64)
    requires
        frame_step(e, r, dir, friction, dt),
        e.position is Some,
        e.visual is Some,
        e.shake_amplitude is None,
    ensures
        r.visual == e.position,
{
}

} // verus!

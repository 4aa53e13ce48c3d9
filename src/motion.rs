//! The per-entity rules of a frame: steering, friction, integration and the
//! visual jitter of shaking entities.
//!
//! Time is counted in microseconds; speeds in units per second, rates of
//! change of speed in units per second per second.
use vstd::prelude::*;

use crate::input::is_direction;
use crate::vector::{
    in_bound, len_sq, length_sq, resize, resized_x, resized_y, with_sign_of, Vec2,
    LENGTH_BOUND,
};

verus! {

pub const MICROS_PER_SECOND: u64 = 1000000;

/// Number of distinct values of one random draw.
pub const DRAW_RANGE: u64 = 4294967296;

/// The speed that a rate of `rate` units per second gives over `dt`
/// microseconds, rounded down.
pub open spec fn step(rate: int, dt: int) -> int {
    rate * dt / MICROS_PER_SECOND as int
}

/// A velocity that the steering and friction rules can work on.
pub open spec fn speed_bounded(v: Vec2) -> bool {
    -LENGTH_BOUND <= v.x <= LENGTH_BOUND && -LENGTH_BOUND <= v.y <= LENGTH_BOUND
}

/// `v` plus the direction `dir` normalized and scaled by the speed gained
/// over `dt`.
pub open spec fn candidate(v: Vec2, accel: u64, dir: Vec2, dt: u64) -> Vec2 {
    Vec2 {
        x: (v.x + resized_x(dir, step(accel as int, dt as int))) as i64,
        y: (v.y + resized_y(dir, step(accel as int, dt as int))) as i64,
    }
}

/// The steering rule for one player entity. A velocity already above the cap
/// is left as it is; otherwise the candidate velocity is adopted when it is
/// below the cap, and scaled to the cap when it is not.
pub open spec fn controlled(v: Vec2, max_speed: u64, accel: u64, dir: Vec2, dt: u64) -> Vec2 {
    if len_sq(v) > max_speed * max_speed {
        v
    } else {
        let c = candidate(v, accel, dir, dt);
        if len_sq(c) < max_speed * max_speed {
            c
        } else {
            Vec2 { x: resized_x(c, max_speed as int) as i64, y: resized_y(c, max_speed as int) as i64 }
        }
    }
}

/// The friction rule for one velocity: above twice the loss of one frame the
/// speed drops by that loss, direction kept; at or below it the velocity
/// snaps to zero.
pub open spec fn after_friction(v: Vec2, friction: u64, dt: u64) -> Vec2 {
    let d = step(friction as int, dt as int);
    if len_sq(v) > (2 * d) * (2 * d) {
        Vec2 { x: (v.x - resized_x(v, d)) as i64, y: (v.y - resized_y(v, d)) as i64 }
    } else {
        Vec2 { x: 0, y: 0 }
    }
}

/// The distance covered at speed `v` (one axis) over `dt`, rounded toward zero.
pub open spec fn displacement(v: int, dt: int) -> int {
    with_sign_of(v, (if v < 0 { -v } else { v }) * dt / MICROS_PER_SECOND as int)
}

/// Where the position rule moves `p` at velocity `v` over `dt`.
pub open spec fn integrated_x(p: Vec2, v: Vec2, dt: u64) -> int {
    p.x + displacement(v.x as int, dt as int)
}

/// See `integrated_x`.
pub open spec fn integrated_y(p: Vec2, v: Vec2, dt: u64) -> int {
    p.y + displacement(v.y as int, dt as int)
}

/// The visual offset of a shaking entity on one axis: the amplitude times a
/// draw taken as a fraction of `DRAW_RANGE`, that is in `[0, 1)`, rounded down.
pub open spec fn jitter_of(amplitude: int, draw: int) -> int {
    amplitude * draw / DRAW_RANGE as int
}

pub open spec fn fits_i64(n: int) -> bool {
    i64::MIN <= n <= i64::MAX
}

/// `step` on machine integers.
pub fn speed_gain(rate: u64, dt: u64) -> (r: u128)
    ensures
        r == step(rate as int, dt as int),
{
    assert(rate * dt <= u64::MAX * u64::MAX) by (nonlinear_arith)
        requires
            rate <= u64::MAX,
            dt <= u64::MAX,
    ;
    (rate as u128) * (dt as u128) / (MICROS_PER_SECOND as u128)
}

/// The steering rule for one player entity; see `controlled`.
pub fn control_velocity(v: Vec2, max_speed: u64, accel: u64, dir: Vec2, dt: u64) -> (r: Vec2)
    requires
        speed_bounded(v),
        max_speed <= LENGTH_BOUND,
        is_direction(dir),
        step(accel as int, dt as int) <= LENGTH_BOUND,
    ensures
        r == controlled(v, max_speed, accel, dir, dt),
        speed_bounded(r),
        len_sq(v) <= max_speed * max_speed ==> len_sq(r) <= max_speed * max_speed,
{
    let lsq = length_sq(v);
    assert(max_speed * max_speed <= LENGTH_BOUND * LENGTH_BOUND) by (nonlinear_arith)
        requires
            0 <= max_speed <= LENGTH_BOUND,
    ;
    let cap: u128 = (max_speed as u128) * (max_speed as u128);
    if lsq > cap {
        return v;
    }
    assert(v.x * v.x <= max_speed * max_speed ==> -max_speed <= v.x <= max_speed) by (nonlinear_arith)
        requires
            0 <= max_speed,
    ;
    assert(v.y * v.y <= max_speed * max_speed ==> -max_speed <= v.y <= max_speed) by (nonlinear_arith)
        requires
            0 <= max_speed,
    ;
    assert(v.x * v.x >= 0 && v.y * v.y >= 0) by (nonlinear_arith);
    let gain = speed_gain(accel, dt);
    let push = resize(dir, gain as u64);
    let c = Vec2 { x: v.x + push.x, y: v.y + push.y };
    assert(in_bound(c));
    let csq = length_sq(c);
    if csq < cap {
        assert(c.x * c.x < max_speed * max_speed ==> -max_speed <= c.x <= max_speed) by (nonlinear_arith)
            requires
                0 <= max_speed,
        ;
        assert(c.y * c.y < max_speed * max_speed ==> -max_speed <= c.y <= max_speed) by (nonlinear_arith)
            requires
                0 <= max_speed,
        ;
        assert(c.x * c.x >= 0 && c.y * c.y >= 0) by (nonlinear_arith);
        c
    } else {
        resize(c, max_speed)
    }
}

/// The friction rule for one velocity; see `after_friction`.
pub fn friction_velocity(v: Vec2, friction: u64, dt: u64) -> (r: Vec2)
    requires
        speed_bounded(v),
    ensures
        r == after_friction(v, friction, dt),
        speed_bounded(r),
{
    let d = speed_gain(friction, dt);
    let lsq = length_sq(v);
    assert(v.x * v.x <= LENGTH_BOUND * LENGTH_BOUND && v.y * v.y <= LENGTH_BOUND * LENGTH_BOUND)
        by (nonlinear_arith)
        requires
            speed_bounded(v),
    ;
    if d > LENGTH_BOUND as u128 {
        assert(len_sq(v) <= (2 * d) * (2 * d)) by (nonlinear_arith)
            requires
                d > LENGTH_BOUND,
                len_sq(v) <= 2 * (LENGTH_BOUND * LENGTH_BOUND),
        ;
        return Vec2 { x: 0, y: 0 };
    }
    assert((2 * d) * (2 * d) <= (2 * LENGTH_BOUND) * (2 * LENGTH_BOUND)) by (nonlinear_arith)
        requires
            0 <= d <= LENGTH_BOUND,
    ;
    let threshold: u128 = (2 * d) * (2 * d);
    if lsq > threshold {
        assert(d * d <= len_sq(v)) by (nonlinear_arith)
            requires
                len_sq(v) > (2 * d) * (2 * d),
                d >= 0,
        ;
        let loss = resize(v, d as u64);
        Vec2 { x: v.x - loss.x, y: v.y - loss.y }
    } else {
        Vec2 { x: 0, y: 0 }
    }
}

/// One axis of the position rule: `p + displacement(v, dt)`.
fn advance(p: i64, v: i64, dt: u64) -> (r: i64)
    requires
        fits_i64(p + displacement(v as int, dt as int)),
    ensures
        r == p + displacement(v as int, dt as int),
{
    let a: u128 = if v < 0 { (-(v as i128)) as u128 } else { v as u128 };
    assert(a * dt <= (i64::MAX + 1) * u64::MAX) by (nonlinear_arith)
        requires
            a <= i64::MAX + 1,
            dt <= u64::MAX,
    ;
    let m: u128 = a * (dt as u128) / (MICROS_PER_SECOND as u128);
    if v < 0 {
        (p as i128 - m as i128) as i64
    } else {
        (p as i128 + m as i128) as i64
    }
}

/// Whether `p + displacement(v, dt)` fits the machine.
pub fn advance_fits(p: i64, v: i64, dt: u64) -> (r: bool)
    ensures
        r == fits_i64(p + displacement(v as int, dt as int)),
{
    let a: u128 = if v < 0 { (-(v as i128)) as u128 } else { v as u128 };
    assert(a * dt <= (i64::MAX + 1) * u64::MAX) by (nonlinear_arith)
        requires
            a <= i64::MAX + 1,
            dt <= u64::MAX,
    ;
    let m: i128 = (a * (dt as u128) / (MICROS_PER_SECOND as u128)) as i128;
    let n: i128 = if v < 0 { p as i128 - m } else { p as i128 + m };
    i64::MIN as i128 <= n && n <= i64::MAX as i128
}

/// The position rule for one entity: each axis moves by its displacement.
pub fn integrate_position(p: Vec2, v: Vec2, dt: u64) -> (r: Vec2)
    requires
        fits_i64(integrated_x(p, v, dt)),
        fits_i64(integrated_y(p, v, dt)),
    ensures
        r.x == integrated_x(p, v, dt),
        r.y == integrated_y(p, v, dt),
{
    Vec2 { x: advance(p.x, v.x, dt), y: advance(p.y, v.y, dt) }
}

/// The visual offset of a shaking entity on one axis; see `jitter_of`.
pub fn jitter(amplitude: u64, draw: u32) -> (r: u64)
    ensures
        r == jitter_of(amplitude as int, draw as int),
        r <= amplitude,
        amplitude > 0 ==> r < amplitude,
{
    assert(amplitude * draw <= u64::MAX * u32::MAX) by (nonlinear_arith)
        requires
            amplitude <= u64::MAX,
            draw <= u32::MAX,
    ;
    assert(amplitude * draw / (DRAW_RANGE as int) <= amplitude) by (nonlinear_arith)
        requires
            0 <= amplitude,
            0 <= draw < DRAW_RANGE,
    ;
    assert(amplitude > 0 ==> amplitude * draw / (DRAW_RANGE as int) < amplitude) by (nonlinear_arith)
        requires
            0 <= amplitude,
            0 <= draw < DRAW_RANGE,
    ;
    ((amplitude as u128) * (draw as u128) / (DRAW_RANGE as u128)) as u64
}

} // verus!

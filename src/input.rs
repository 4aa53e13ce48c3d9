//! The input sampler: four direction keys to a direction of motion.
use vstd::prelude::*;

use crate::vector::Vec2;

verus! {

/// Which of the four direction keys are held down in this frame.
#[derive(Clone, Copy, Debug, PartialEq, Eq, Structural)]
pub struct Keys {
    pub up: bool,
    pub down: bool,
    pub left: bool,
    pub right: bool,
}

/// +1 for the positive key alone, -1 for the negative key alone, 0 for both or
/// neither.
pub open spec fn axis(positive: bool, negative: bool) -> int {
    (if positive { 1int } else { 0int }) - (if negative { 1int } else { 0int })
}

/// A direction of motion, `(right - left, up - down)`: each axis is -1, 0 or 1.
/// It is normalized where it is used, by `resize`, which keeps the zero vector
/// zero and gives the diagonals the same length as the axes.
pub open spec fn is_direction(d: Vec2) -> bool {
    -1 <= d.x <= 1 && -1 <= d.y <= 1
}

impl Keys {
    pub fn new(up: bool, down: bool, left: bool, right: bool) -> (r: Keys)
        ensures
            r == (Keys { up, down, left, right }),
    {
        Keys { up, down, left, right }
    }

    pub fn none() -> (r: Keys)
        ensures
            !r.up && !r.down && !r.left && !r.right,
    {
        Keys { up: false, down: false, left: false, right: false }
    }
}

/// The direction that the held keys ask for; opposing keys cancel exactly.
pub fn sample_direction(keys: Keys) -> (r: Vec2)
    ensures
        r.x == axis(keys.right, keys.left),
        r.y == axis(keys.up, keys.down),
        is_direction(r),
{
    let x: i64 = (if keys.right { 1i64 } else { 0i64 }) - (if keys.left { 1i64 } else { 0i64 });
    let y: i64 = (if keys.up { 1i64 } else { 0i64 }) - (if keys.down { 1i64 } else { 0i64 });
    Vec2 { x, y }
}

} // verus!

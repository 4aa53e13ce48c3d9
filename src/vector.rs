//! Plane vectors in fixed-point units, and resizing them to a given length.
use vstd::prelude::*;
use vstd::arithmetic::div_mod::{
    lemma_div_is_ordered, lemma_div_multiples_vanish, lemma_fundamental_div_mod,
};

use crate::arith::{floor_sqrt, is_floor_sqrt, isqrt};

verus! {

/// Largest absolute value of a component that the resizing arithmetic takes.
pub const COMPONENT_BOUND: i64 = 4294967296;

/// Largest length that a vector is resized to.
pub const LENGTH_BOUND: u64 = 2147483648;

/// A vector of the plane; each unit is a fixed fraction of a pixel.
#[derive(Clone, Copy, Debug, PartialEq, Eq, Structural)]
pub struct Vec2 {
    pub x: i64,
    pub y: i64,
}

/// Squared Euclidean length.
pub open spec fn len_sq(v: Vec2) -> int {
    v.x * v.x + v.y * v.y
}

/// Both components lie within `COMPONENT_BOUND`.
pub open spec fn in_bound(v: Vec2) -> bool {
    -COMPONENT_BOUND <= v.x <= COMPONENT_BOUND && -COMPONENT_BOUND <= v.y <= COMPONENT_BOUND
}

/// `m` carrying the sign of `x`.
pub open spec fn with_sign_of(x: int, m: int) -> int {
    if x < 0 {
        -m
    } else {
        m
    }
}

/// Component `x` of a vector whose squared length is `lsq`, once the vector is
/// stretched to length `len`: `x * len / sqrt(lsq)`, rounded toward zero.
pub open spec fn scaled(x: int, len: int, lsq: int) -> int {
    with_sign_of(x, floor_sqrt(((x * x * len * len) / lsq) as nat) as int)
}

/// `v` scaled to length `len` (the unit vector of `v` times `len`), each
/// component rounded toward zero; the zero vector stays zero.
pub open spec fn resized_x(v: Vec2, len: int) -> int {
    if len_sq(v) == 0 {
        0
    } else {
        scaled(v.x as int, len, len_sq(v))
    }
}

/// See `resized_x`.
pub open spec fn resized_y(v: Vec2, len: int) -> int {
    if len_sq(v) == 0 {
        0
    } else {
        scaled(v.y as int, len, len_sq(v))
    }
}

impl Vec2 {
    pub fn new(x: i64, y: i64) -> (r: Vec2)
        ensures
            r.x == x,
            r.y == y,
    {
        Vec2 { x, y }
    }

    pub fn zero() -> (r: Vec2)
        ensures
            r.x == 0,
            r.y == 0,
    {
        Vec2 { x: 0, y: 0 }
    }
}

/// Squared length of a bounded vector.
pub fn length_sq(v: Vec2) -> (r: u128)
    requires
        in_bound(v),
    ensures
        r == len_sq(v),
{
    let ax: u128 = if v.x < 0 { (-(v.x as i128)) as u128 } else { v.x as u128 };
    let ay: u128 = if v.y < 0 { (-(v.y as i128)) as u128 } else { v.y as u128 };
    assert(ax * ax <= COMPONENT_BOUND * COMPONENT_BOUND) by (nonlinear_arith)
        requires
            ax <= COMPONENT_BOUND,
    ;
    assert(ay * ay <= COMPONENT_BOUND * COMPONENT_BOUND) by (nonlinear_arith)
        requires
            ay <= COMPONENT_BOUND,
    ;
    assert(ax * ax == v.x * v.x) by (nonlinear_arith)
        requires
            ax == v.x || ax == -v.x,
    ;
    assert(ay * ay == v.y * v.y) by (nonlinear_arith)
        requires
            ay == v.y || ay == -v.y,
    ;
    ax * ax + ay * ay
}

/// One component of a resized vector: `scaled(x, len, lsq)`.
fn scaled_component(x: i64, len: u64, lsq: u128) -> (r: i64)
    requires
        -COMPONENT_BOUND <= x <= COMPONENT_BOUND,
        len <= LENGTH_BOUND,
        x * x <= lsq,
        lsq > 0,
    ensures
        r == scaled(x as int, len as int, lsq as int),
        -len <= r <= len,
        len * len <= lsq ==> (0 <= x ==> 0 <= r <= x) && (x < 0 ==> x <= r <= 0),
        r * r * lsq <= x * x * len * len,
{
    let a: u128 = if x < 0 { (-(x as i128)) as u128 } else { x as u128 };
    let l: u128 = len as u128;
    assert(a * a == x * x) by (nonlinear_arith)
        requires
            a == x || a == -x,
    ;
    assert(a * a * l * l <= COMPONENT_BOUND * COMPONENT_BOUND * LENGTH_BOUND * LENGTH_BOUND)
        by (nonlinear_arith)
        requires
            0 <= a <= COMPONENT_BOUND,
            0 <= l <= LENGTH_BOUND,
    ;
    assert(a * a <= COMPONENT_BOUND * COMPONENT_BOUND && a * a * l <= COMPONENT_BOUND
        * COMPONENT_BOUND * LENGTH_BOUND) by (nonlinear_arith)
        requires
            0 <= a <= COMPONENT_BOUND,
            0 <= l <= LENGTH_BOUND,
    ;
    let num: u128 = a * a * l * l;
    let q: u128 = num / lsq;
    proof {
        assert(num <= lsq * (l * l)) by (nonlinear_arith)
            requires
                num == a * a * l * l,
                a * a <= lsq,
        ;
        lemma_div_is_ordered(num as int, lsq * (l * l), lsq as int);
        lemma_div_multiples_vanish((l * l) as int, lsq as int);
        assert(x * x * len * len == num) by (nonlinear_arith)
            requires
                a * a == x * x,
                num == a * a * l * l,
                l == len,
        ;
    }
    proof {
        if l * l <= lsq {
            assert(num <= lsq * (a * a)) by (nonlinear_arith)
                requires
                    num == a * a * l * l,
                    l * l <= lsq,
            ;
            lemma_div_is_ordered(num as int, lsq * (a * a), lsq as int);
            lemma_div_multiples_vanish((a * a) as int, lsq as int);
        }
    }
    let s: u64 = isqrt(q);
    assert(q <= a * a ==> s <= a) by (nonlinear_arith)
        requires
            s * s <= q,
            0 <= s,
            0 <= a,
    ;
    assert(s <= len) by (nonlinear_arith)
        requires
            s * s <= q,
            q <= l * l,
            l == len,
            0 <= s,
    ;
    proof {
        lemma_fundamental_div_mod(num as int, lsq as int);
        assert((num as int) % (lsq as int) >= 0);
        assert(s * s * lsq <= num) by (nonlinear_arith)
            requires
                s * s <= q,
                q == num / lsq,
                num == lsq * (num / lsq) + num % lsq,
                num % lsq >= 0,
                lsq > 0,
        ;
        assert((-s) * (-s) == s * s) by (nonlinear_arith);
    }
    if x < 0 {
        -(s as i64)
    } else {
        s as i64
    }
}

/// The unit vector of `v` times `len`, rounded toward zero on each axis; the
/// zero vector stays zero.
pub fn resize(v: Vec2, len: u64) -> (r: Vec2)
    requires
        in_bound(v),
        len <= LENGTH_BOUND,
    ensures
        r.x == resized_x(v, len as int),
        r.y == resized_y(v, len as int),
        -len <= r.x <= len,
        -len <= r.y <= len,
        len * len <= len_sq(v) ==> (0 <= v.x ==> 0 <= r.x <= v.x) && (v.x < 0 ==> v.x <= r.x <= 0)
            && (0 <= v.y ==> 0 <= r.y <= v.y) && (v.y < 0 ==> v.y <= r.y <= 0),
        len_sq(r) <= len * len,
{
    let lsq = length_sq(v);
    if lsq == 0 {
        assert(len * len >= 0) by (nonlinear_arith);
        return Vec2 { x: 0, y: 0 };
    }
    assert(v.x * v.x >= 0 && v.y * v.y >= 0) by (nonlinear_arith);
    let x = scaled_component(v.x, len, lsq);
    let y = scaled_component(v.y, len, lsq);
    assert((x * x + y * y) <= len * len) by (nonlinear_arith)
        requires
            x * x * lsq <= v.x * v.x * len * len,
            y * y * lsq <= v.y * v.y * len * len,
            lsq == v.x * v.x + v.y * v.y,
            lsq > 0,
    ;
    Vec2 { x, y }
}

} // verus!

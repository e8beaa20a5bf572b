//! Two-dimensional fixed-point vectors.

use vstd::prelude::*;

use crate::fixed::{ACC_LIM, LIM, mul_wide};

verus! {

/// A 2D vector whose components are fixed-point thousandths.
#[derive(Debug, Clone, Copy, PartialEq, Eq, Structural)]
pub struct Vec2 {
    pub x: i64,
    pub y: i64,
}

/// Both components lie within the saturation bound.
pub open spec fn vec2_wf(v: Vec2) -> bool {
    -LIM <= v.x <= LIM && -LIM <= v.y <= LIM
}

/// Squared Euclidean distance between two vectors.
pub open spec fn dist_sq(a: Vec2, b: Vec2) -> int {
    (a.x - b.x) * (a.x - b.x) + (a.y - b.y) * (a.y - b.y)
}

/// Squared Euclidean norm of a vector.
pub open spec fn norm_sq(v: Vec2) -> int {
    v.x * v.x + v.y * v.y
}

impl Vec2 {
    pub fn new(x: i64, y: i64) -> (r: Vec2)
        ensures
            r == (Vec2 { x, y }),
    {
        Vec2 { x, y }
    }

    pub fn zeros() -> (r: Vec2)
        ensures
            r == (Vec2 { x: 0, y: 0 }),
    {
        Vec2 { x: 0, y: 0 }
    }
}

/// Squared distance between two well-formed vectors, computed exactly
/// in double width.
pub fn dist_sq_wide(a: Vec2, b: Vec2) -> (r: i128)
    requires
        vec2_wf(a),
        vec2_wf(b),
    ensures
        r == dist_sq(a, b),
        0 <= r <= ACC_LIM,
{
    let dx: i64 = a.x - b.x;
    let dy: i64 = a.y - b.y;
    let sx: i128 = mul_wide(dx, dx);
    let sy: i128 = mul_wide(dy, dy);
    proof {
        assert(sx >= 0 && sy >= 0) by (nonlinear_arith)
            requires
                sx == dx * dx,
                sy == dy * dy,
        ;
    }
    sx + sy
}

/// Squared norm of a well-formed vector, computed exactly in double width.
pub fn norm_sq_wide(v: Vec2) -> (r: i128)
    requires
        vec2_wf(v),
    ensures
        r == norm_sq(v),
        0 <= r <= ACC_LIM,
{
    let sx: i128 = mul_wide(v.x, v.x);
    let sy: i128 = mul_wide(v.y, v.y);
    proof {
        assert(sx >= 0 && sy >= 0) by (nonlinear_arith)
            requires
                sx == v.x * v.x,
                sy == v.y * v.y,
        ;
    }
    sx + sy
}

} // verus!

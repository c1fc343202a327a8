//! Integer vectors: points and directions in world space.
//!
//! Positions are in thousandths of a world unit.

use vstd::prelude::*;

verus! {

/// The largest coordinate, direction component or radius, in absolute value,
/// for which the exact arithmetic below fits the machine's widest integer.
pub const COORD_MAX: i64 = 0x200_0000;

/// A vector of three mathematical integers.
pub struct V3 {
    pub x: int,
    pub y: int,
    pub z: int,
}

impl V3 {
    /// The componentwise difference `self - other`.
    pub open spec fn minus(self, other: V3) -> V3 {
        V3 { x: self.x - other.x, y: self.y - other.y, z: self.z - other.z }
    }

    /// The scalar product.
    pub open spec fn dot(self, other: V3) -> int {
        self.x * other.x + self.y * other.y + self.z * other.z
    }

    /// Every component is at most `limit` in absolute value.
    pub open spec fn bounded(self, limit: int) -> bool {
        &&& -limit <= self.x <= limit
        &&& -limit <= self.y <= limit
        &&& -limit <= self.z <= limit
    }
}

/// A point or a direction in world space.
#[derive(Clone, Copy, Debug)]
pub struct Point3 {
    pub x: i64,
    pub y: i64,
    pub z: i64,
}

impl View for Point3 {
    type V = V3;

    open spec fn view(&self) -> V3 {
        V3 { x: self.x as int, y: self.y as int, z: self.z as int }
    }
}

impl Point3 {
    /// Every component is at most [`COORD_MAX`] in absolute value.
    pub open spec fn spec_in_reach(&self) -> bool {
        self@.bounded(COORD_MAX as int)
    }

    /// Whether every component is at most [`COORD_MAX`] in absolute value.
    #[verifier::when_used_as_spec(spec_in_reach)]
    pub fn in_reach(&self) -> (b: bool)
        ensures
            b == self.in_reach(),
    {
        -COORD_MAX <= self.x && self.x <= COORD_MAX && -COORD_MAX <= self.y && self.y <= COORD_MAX
            && -COORD_MAX <= self.z && self.z <= COORD_MAX
    }

    /// The difference `self - other` of two points within reach.
    pub fn minus(&self, other: &Point3) -> (d: Point3)
        requires
            self.in_reach(),
            other.in_reach(),
        ensures
            d@ == self@.minus(other@),
            d@.bounded(2 * COORD_MAX),
    {
        Point3 { x: self.x - other.x, y: self.y - other.y, z: self.z - other.z }
    }

    /// The scalar product of two vectors that are differences of points
    /// within reach, or within reach themselves.
    pub fn dot(&self, other: &Point3) -> (p: i128)
        requires
            self@.bounded(2 * COORD_MAX),
            other@.bounded(2 * COORD_MAX),
        ensures
            p == self@.dot(other@),
    {
        proof {
            lemma_product_bound(self.x as int, other.x as int, 0x400_0000, 0x400_0000);
            lemma_product_bound(self.y as int, other.y as int, 0x400_0000, 0x400_0000);
            lemma_product_bound(self.z as int, other.z as int, 0x400_0000, 0x400_0000);
        }
        (self.x as i128) * (other.x as i128) + (self.y as i128) * (other.y as i128) + (self.z as i128)
            * (other.z as i128)
    }

}

/// A product is bounded by the product of its factors' bounds.
pub proof fn lemma_product_bound(x: int, y: int, lx: int, ly: int)
    requires
        -lx <= x <= lx,
        -ly <= y <= ly,
    ensures
        -(lx * ly) <= x * y <= lx * ly,
{
    assert(-(lx * ly) <= x * y <= lx * ly) by (nonlinear_arith)
        requires
            -lx <= x <= lx,
            -ly <= y <= ly,
    ;
}

/// A scalar product is bounded by three times the product of the bounds of
/// its arguments' components.
pub proof fn lemma_dot_bound(p: V3, q: V3, lp: int, lq: int)
    requires
        p.bounded(lp),
        q.bounded(lq),
    ensures
        -3 * (lp * lq) <= p.dot(q) <= 3 * (lp * lq),
{
    lemma_product_bound(p.x, q.x, lp, lq);
    lemma_product_bound(p.y, q.y, lp, lq);
    lemma_product_bound(p.z, q.z, lp, lq);
}

} // verus!

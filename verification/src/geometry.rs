//! Two-dimensional vectors and axis-aligned rectangles over [`Scalar`].

use vstd::prelude::*;
use crate::scalar::{scaled_product, Scalar};

verus! {

/// A displacement, velocity or force in the plane.
#[derive(Clone, Copy, Debug, PartialEq, Eq, Structural)]
pub struct Vector2 {
    pub x: Scalar,
    pub y: Scalar,
}

impl Vector2 {
    /// The vector whose components are both zero.
    pub open spec fn spec_zero() -> Vector2 {
        Vector2 { x: Scalar { raw: 0 }, y: Scalar { raw: 0 } }
    }

    /// Component-wise saturating sum.
    pub open spec fn spec_plus(self, rhs: Vector2) -> Vector2 {
        Vector2 { x: self.x.spec_plus(rhs.x), y: self.y.spec_plus(rhs.y) }
    }

    /// Both components multiplied by `factor`.
    pub open spec fn spec_scaled(self, factor: Scalar) -> Vector2 {
        Vector2 { x: self.x.spec_times(factor), y: self.y.spec_times(factor) }
    }

    pub fn new(x: Scalar, y: Scalar) -> (r: Vector2)
        ensures
            r == (Vector2 { x, y }),
    {
        Vector2 { x, y }
    }

    pub fn zero() -> (r: Vector2)
        ensures
            r == Vector2::spec_zero(),
    {
        Vector2 { x: Scalar::zero(), y: Scalar::zero() }
    }

    pub fn plus(self, rhs: Vector2) -> (r: Vector2)
        ensures
            r == self.spec_plus(rhs),
    {
        Vector2 { x: self.x.plus(rhs.x), y: self.y.plus(rhs.y) }
    }

    pub fn scaled(self, factor: Scalar) -> (r: Vector2)
        ensures
            r == self.spec_scaled(factor),
    {
        Vector2 { x: self.x.times(factor), y: self.y.times(factor) }
    }
}

/// An axis-aligned rectangle: the corner `(x, y)` and the extent `(w, h)`.
#[derive(Clone, Copy, Debug, PartialEq, Eq, Structural)]
pub struct Rect {
    pub x: Scalar,
    pub y: Scalar,
    pub w: Scalar,
    pub h: Scalar,
}

impl Rect {
    /// The corner of the rectangle.
    pub open spec fn spec_xy(self) -> Vector2 {
        Vector2 { x: self.x, y: self.y }
    }

    /// The rectangle after moving for a time `dt` at `velocity`: the corner
    /// is displaced by `velocity * dt`, the extent is kept.
    pub open spec fn spec_advanced(self, velocity: Vector2, dt: Scalar) -> Rect {
        Rect {
            x: self.x.spec_plus(velocity.x.spec_times(dt)),
            y: self.y.spec_plus(velocity.y.spec_times(dt)),
            w: self.w,
            h: self.h,
        }
    }

    pub fn new(x: Scalar, y: Scalar, w: Scalar, h: Scalar) -> (r: Rect)
        ensures
            r == (Rect { x, y, w, h }),
    {
        Rect { x, y, w, h }
    }

    pub fn xy(&self) -> (r: Vector2)
        ensures
            r == self.spec_xy(),
    {
        Vector2 { x: self.x, y: self.y }
    }

    /// Moves the rectangle for a time `dt` at `velocity`.
    pub fn advance(&mut self, velocity: Vector2, dt: Scalar)
        ensures
            *final(self) == old(self).spec_advanced(velocity, dt),
    {
        self.x = self.x.plus(velocity.x.times(dt));
        self.y = self.y.plus(velocity.y.times(dt));
    }
}

/// As long as neither the product nor the sum leaves the range, a step
/// displaces the corner by exactly `velocity * dt`, rounded toward zero to
/// a whole number of raw units.
pub proof fn lemma_advanced_exact(rect: Rect, velocity: Vector2, dt: Scalar)
    requires
        i64::MIN <= scaled_product(velocity.x@, dt@) <= i64::MAX,
        i64::MIN <= scaled_product(velocity.y@, dt@) <= i64::MAX,
        i64::MIN <= rect.x@ + scaled_product(velocity.x@, dt@) <= i64::MAX,
        i64::MIN <= rect.y@ + scaled_product(velocity.y@, dt@) <= i64::MAX,
    ensures
        rect.spec_advanced(velocity, dt).x@ == rect.x@ + scaled_product(velocity.x@, dt@),
        rect.spec_advanced(velocity, dt).y@ == rect.y@ + scaled_product(velocity.y@, dt@),
        rect.spec_advanced(velocity, dt).w == rect.w,
        rect.spec_advanced(velocity, dt).h == rect.h,
{
}

} // verus!

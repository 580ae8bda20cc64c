//! Linear motion at the current velocity.

use vstd::prelude::*;
use crate::geometry::{Rect, Vector2};
use crate::physics_system::PhysicsSystem;
use crate::scalar::Scalar;

verus! {

/// Moves its entity in a straight line at the stored velocity.
#[derive(Debug)]
pub struct PlayerPhysicsSystem {
    pub velocity: Vector2,
}

impl Default for PlayerPhysicsSystem {
    /// At rest.
    fn default() -> (r: Self)
        ensures
            r.velocity == Vector2::spec_zero(),
    {
        PlayerPhysicsSystem { velocity: Vector2::zero() }
    }
}

impl PhysicsSystem for PlayerPhysicsSystem {
    open spec fn velocity(&self) -> Vector2 {
        self.velocity
    }

    fn get_velocity(&self) -> (v: Vector2) {
        self.velocity
    }

    fn set_velocity(&mut self, x: Scalar, y: Scalar) {
        self.velocity = Vector2::new(x, y);
    }

    fn apply_force(&mut self, force: &Vector2) {
        self.velocity = self.velocity.plus(*force);
    }

    fn update(&mut self, location: &mut Rect, dt: Scalar) {
        location.advance(self.velocity, dt);
    }
}

} // verus!

//! The physics capability of an entity.

use vstd::prelude::*;
use crate::geometry::{Rect, Vector2};
use crate::scalar::Scalar;

pub mod player_physics_system;

verus! {

/// A behaviour that owns a velocity and integrates it into a position.
///
/// A force is an impulse: it is added to the velocity as it is, with no mass
/// and no time step.
pub trait PhysicsSystem {
    /// The current velocity.
    spec fn velocity(&self) -> Vector2;

    fn get_velocity(&self) -> (v: Vector2)
        ensures
            v == self.velocity(),
    ;

    /// Overwrites the velocity.
    fn set_velocity(&mut self, x: Scalar, y: Scalar)
        ensures
            final(self).velocity() == (Vector2 { x, y }),
    ;

    /// Adds `force` to the velocity.
    fn apply_force(&mut self, force: &Vector2)
        ensures
            final(self).velocity() == old(self).velocity().spec_plus(*force),
    ;

    /// One Euler step: moves `location` by `velocity * dt` and keeps the
    /// velocity.
    fn update(&mut self, location: &mut Rect, dt: Scalar)
        ensures
            final(self).velocity() == old(self).velocity(),
            *final(location) == old(location).spec_advanced(old(self).velocity(), dt),
    ;
}

} // verus!

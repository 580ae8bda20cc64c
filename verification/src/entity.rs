//! A positioned object that delegates movement and rendering to the
//! behaviours it owns.

use vstd::prelude::*;
use crate::draw_system::{DrawError, DrawSystem, RenderContext};
use crate::drawables::Drawables;
use crate::geometry::{Rect, Vector2};
use crate::physics_system::PhysicsSystem;
use crate::scalar::{
    lemma_plus_zero, lemma_scaled_product_bounds, lemma_times_fraction, lemma_times_zero, Scalar,
    SCALE,
};

verus! {

/// A rectangle in the world with an optional physics behaviour and an
/// optional draw behaviour.
///
/// An absent behaviour is never an error: the operations that would use it
/// do nothing, or return zero.
pub struct Entity {
    pub location: Rect,
    pub extrapolation_active: bool,
    pub draw_system: Option<Box<dyn DrawSystem>>,
    pub affected_by_gravity: bool,
    pub physics_system: Option<Box<dyn PhysicsSystem>>,
}

impl Entity {
    /// The velocity of the physics behaviour, or zero without one.
    pub open spec fn spec_velocity(&self) -> Vector2 {
        match self.physics_system {
            Some(physics_system) => physics_system.velocity(),
            None => Vector2::spec_zero(),
        }
    }

    /// The position a fraction `lag` of a step after the last completed
    /// step: `location + velocity * lag`, or the location itself without a
    /// physics behaviour.
    pub open spec fn spec_extrapolated_position(&self, lag: Scalar) -> Vector2 {
        match self.physics_system {
            Some(physics_system) => self.location.spec_xy().spec_plus(
                physics_system.velocity().spec_scaled(lag),
            ),
            None => self.location.spec_xy(),
        }
    }

    /// The position at which the entity is rendered.
    pub open spec fn spec_render_position(&self, lag: Scalar) -> Vector2 {
        if self.extrapolation_active {
            self.spec_extrapolated_position(lag)
        } else {
            self.location.spec_xy()
        }
    }

    /// The entity with its corner at `(x, y)`.
    pub open spec fn spec_with_location(self, x: Scalar, y: Scalar) -> Entity {
        Entity {
            location: Rect { x, y, w: self.location.w, h: self.location.h },
            ..self
        }
    }

    /// The entity with rendering extrapolation switched on or off.
    pub open spec fn spec_with_extrapolation(self, is_active: bool) -> Entity {
        Entity { extrapolation_active: is_active, ..self }
    }

    /// The entity made subject to gravity.
    pub open spec fn spec_with_gravity(self) -> Entity {
        Entity { affected_by_gravity: true, ..self }
    }

    /// Moves the corner to `(x, y)`; the extent and everything else stay.
    pub fn set_location(self, x: Scalar, y: Scalar) -> (r: Entity)
        ensures
            r == self.spec_with_location(x, y),
    {
        let mut entity = self;
        entity.location.x = x;
        entity.location.y = y;
        entity
    }

    /// Chooses whether rendering extrapolates the position.
    pub fn set_extrapolation_active(self, is_active: bool) -> (r: Entity)
        ensures
            r == self.spec_with_extrapolation(is_active),
    {
        let mut entity = self;
        entity.extrapolation_active = is_active;
        entity
    }

    /// Attaches a draw behaviour, in place of any earlier one.
    pub fn set_draw_system(self, draw_system: Box<dyn DrawSystem>) -> (r: Entity)
        ensures
            r.draw_system == Some(draw_system),
            r.location == self.location,
            r.extrapolation_active == self.extrapolation_active,
            r.affected_by_gravity == self.affected_by_gravity,
            r.physics_system == self.physics_system,
    {
        let mut entity = self;
        let attached = Some(draw_system);
        entity.draw_system = attached;
        entity
    }

    /// Makes the entity subject to gravity.
    pub fn set_affected_by_gravity(self) -> (r: Entity)
        ensures
            r == self.spec_with_gravity(),
    {
        let mut entity = self;
        entity.affected_by_gravity = true;
        entity
    }

    /// Attaches a physics behaviour, in place of any earlier one.
    pub fn set_physics_system(self, physics_system: Box<dyn PhysicsSystem>) -> (r: Entity)
        ensures
            r.physics_system == Some(physics_system),
            r.spec_velocity() == physics_system.velocity(),
            r.location == self.location,
            r.extrapolation_active == self.extrapolation_active,
            r.affected_by_gravity == self.affected_by_gravity,
            r.draw_system == self.draw_system,
    {
        let mut entity = self;
        let attached = Some(physics_system);
        entity.physics_system = attached;
        entity
    }

    /// The velocity of the physics behaviour, or zero without one.
    pub fn get_velocity(&self) -> (v: Vector2)
        ensures
            v == self.spec_velocity(),
            self.physics_system is None ==> v == Vector2::spec_zero(),
    {
        match &self.physics_system {
            Some(physics_system) => physics_system.get_velocity(),
            None => Vector2::zero(),
        }
    }

    /// Overwrites the velocity of the physics behaviour; does nothing
    /// without one.
    pub fn set_velocity(&mut self, x: Scalar, y: Scalar)
        ensures
            final(self).location == old(self).location,
            final(self).extrapolation_active == old(self).extrapolation_active,
            final(self).affected_by_gravity == old(self).affected_by_gravity,
            final(self).draw_system == old(self).draw_system,
            old(self).physics_system is None ==> *final(self) == *old(self),
            old(self).physics_system is Some ==> {
                &&& final(self).physics_system is Some
                &&& final(self).spec_velocity() == (Vector2 { x, y })
            },
    {
        if let Some(physics_system) = &mut self.physics_system {
            physics_system.set_velocity(x, y);
        }
    }

    /// The position a fraction `lag` of a step ahead, at the current
    /// velocity. The entity itself does not move.
    pub fn get_extrapolated_position(&self, lag: Scalar) -> (r: Vector2)
        ensures
            r == self.spec_extrapolated_position(lag),
            lag@ == 0 ==> r == self.location.spec_xy(),
    {
        proof {
            lemma_extrapolation_at_zero_lag(*self);
        }
        let position = self.location.xy();
        match &self.physics_system {
            Some(physics_system) => position.plus(physics_system.get_velocity().scaled(lag)),
            None => position,
        }
    }

    /// Renders the entity through its draw behaviour: at the extrapolated
    /// position where extrapolation is active, at the location otherwise.
    /// Without a draw behaviour nothing is drawn, which is a success. An
    /// error of the behaviour is returned as it is.
    pub fn draw(
        &self,
        context: &mut RenderContext,
        drawables: &Drawables,
        lag: Scalar,
    ) -> (r: Result<(), DrawError>)
        ensures
            match self.draw_system {
                None => r is Ok && final(context)@ == old(context)@,
                Some(draw_system) => match draw_system.outcome(
                    drawables,
                    self.spec_render_position(lag),
                    lag,
                    &self.physics_system,
                ) {
                    Ok(command) => {
                        &&& r is Ok
                        &&& command.dest == self.spec_render_position(lag)
                        &&& final(context)@ == old(context)@.push(command)
                    },
                    Err(error) => {
                        &&& r == Err::<(), DrawError>(error)
                        &&& final(context)@ == old(context)@
                    },
                },
            },
    {
        match &self.draw_system {
            Some(draw_system) => {
                let position = if self.extrapolation_active {
                    self.get_extrapolated_position(lag)
                } else {
                    self.location.xy()
                };
                draw_system.draw(drawables, context, &position, lag, &self.physics_system)
            },
            None => Ok(()),
        }
    }

    /// One fixed step of length `dt`: gravity is added to the velocity first,
    /// where the entity is subject to it, and the location then moves at the
    /// resulting velocity. Without a physics behaviour nothing changes.
    pub fn update(&mut self, gravity: &Vector2, dt: Scalar)
        ensures
            final(self).extrapolation_active == old(self).extrapolation_active,
            final(self).affected_by_gravity == old(self).affected_by_gravity,
            final(self).draw_system == old(self).draw_system,
            match old(self).physics_system {
                None => *final(self) == *old(self),
                Some(before) => {
                    let velocity = if old(self).affected_by_gravity {
                        before.velocity().spec_plus(*gravity)
                    } else {
                        before.velocity()
                    };
                    &&& final(self).physics_system is Some
                    &&& final(self).spec_velocity() == velocity
                    &&& final(self).location == old(self).location.spec_advanced(velocity, dt)
                },
            },
    {
        if let Some(physics_system) = &mut self.physics_system {
            if self.affected_by_gravity {
                physics_system.apply_force(gravity);
            }
            physics_system.update(&mut self.location, dt);
        }
    }
}

impl Default for Entity {
    /// At the origin with no extent, extrapolated when rendered, not subject
    /// to gravity, and with no behaviour attached.
    fn default() -> (r: Entity)
        ensures
            r.location == (Rect {
                x: Scalar { raw: 0 },
                y: Scalar { raw: 0 },
                w: Scalar { raw: 0 },
                h: Scalar { raw: 0 },
            }),
            r.extrapolation_active,
            r.draw_system is None,
            !r.affected_by_gravity,
            r.physics_system is None,
    {
        Entity {
            location: Rect::new(Scalar::zero(), Scalar::zero(), Scalar::zero(), Scalar::zero()),
            extrapolation_active: true,
            draw_system: None,
            affected_by_gravity: false,
            physics_system: None,
        }
    }
}

/// With no lag the extrapolated position is the location itself, with or
/// without a physics behaviour.
pub proof fn lemma_extrapolation_at_zero_lag(entity: Entity)
    ensures
        entity.spec_extrapolated_position(Scalar { raw: 0 }) == entity.location.spec_xy(),
{
    if let Some(physics_system) = entity.physics_system {
        let velocity = physics_system.velocity();
        lemma_times_zero(velocity.x);
        lemma_times_zero(velocity.y);
        lemma_plus_zero(entity.location.x);
        lemma_plus_zero(entity.location.y);
    }
}

/// For a fixed velocity the extrapolated position is affine in the lag:
/// as long as it stays in range, each coordinate is `location + velocity *
/// lag`, rounded toward the location by less than one raw unit.
pub proof fn lemma_extrapolation_is_affine(entity: Entity, lag: Scalar)
    requires
        0 <= lag@ <= SCALE,
        i64::MIN <= entity.location.x@ + entity.spec_velocity().x@ <= i64::MAX,
        i64::MIN <= entity.location.y@ + entity.spec_velocity().y@ <= i64::MAX,
    ensures
        ({
            let start = entity.location.spec_xy();
            let velocity = entity.spec_velocity();
            let position = entity.spec_extrapolated_position(lag);
            &&& -SCALE < (position.x@ - start.x@) * SCALE - velocity.x@ * lag@ < SCALE
            &&& -SCALE < (position.y@ - start.y@) * SCALE - velocity.y@ * lag@ < SCALE
        }),
{
    let velocity = entity.spec_velocity();
    lemma_times_fraction(velocity.x, lag);
    lemma_times_fraction(velocity.y, lag);
    lemma_scaled_product_bounds(velocity.x@, lag@);
    lemma_scaled_product_bounds(velocity.y@, lag@);
    if entity.physics_system is None {
        assert(0 * lag@ == 0) by (nonlinear_arith);
    }
}

/// Setting the location and making the entity subject to gravity give the
/// same entity in either order.
pub proof fn lemma_location_and_gravity_commute(entity: Entity, x: Scalar, y: Scalar)
    ensures
        entity.spec_with_location(x, y).spec_with_gravity()
            == entity.spec_with_gravity().spec_with_location(x, y),
{
}

} // verus!

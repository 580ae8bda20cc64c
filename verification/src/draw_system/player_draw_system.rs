//! Renders the player sprite.

use vstd::prelude::*;
use crate::draw_system::{DrawCommand, DrawError, DrawSystem, RenderContext};
use crate::drawables::Drawables;
use crate::geometry::Vector2;
use crate::physics_system::PhysicsSystem;
use crate::scalar::Scalar;

verus! {

/// Draws the player resource at the entity's position. It ignores the lag
/// and the physics behaviour.
#[derive(Debug)]
pub struct PlayerDrawSystem;

impl DrawSystem for PlayerDrawSystem {
    open spec fn outcome(
        &self,
        drawables: &Drawables,
        position: Vector2,
        lag: Scalar,
        physics_system: &Option<Box<dyn PhysicsSystem>>,
    ) -> Result<DrawCommand, DrawError> {
        Ok(DrawCommand { drawable: drawables.player, dest: position })
    }

    fn draw(
        &self,
        drawables: &Drawables,
        context: &mut RenderContext,
        position: &Vector2,
        lag: Scalar,
        physics_system: &Option<Box<dyn PhysicsSystem>>,
    ) -> (r: Result<(), DrawError>) {
        context.submit(DrawCommand { drawable: drawables.player, dest: *position });
        Ok(())
    }
}

} // verus!

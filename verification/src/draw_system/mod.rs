//! The draw capability of an entity, and the commands it issues.

use vstd::prelude::*;
use crate::drawables::{DrawableId, Drawables};
use crate::geometry::Vector2;
use crate::physics_system::PhysicsSystem;
use crate::scalar::Scalar;

pub mod player_draw_system;

verus! {

/// A request to draw one resource with its corner at `dest`, neither scaled
/// nor rotated.
#[derive(Clone, Copy, Debug, PartialEq, Eq, Structural)]
pub struct DrawCommand {
    pub drawable: DrawableId,
    pub dest: Vector2,
}

/// Why a draw call failed.
#[derive(Clone, Copy, Debug, PartialEq, Eq, Structural)]
pub enum DrawError {
    /// A resource that the behaviour needs is not available.
    MissingResource,
    /// The rendering backend could not carry the call out.
    Backend,
}

/// The draw commands of one frame, in the order in which they were issued.
#[derive(Debug)]
pub struct RenderContext {
    pub commands: Vec<DrawCommand>,
}

impl View for RenderContext {
    type V = Seq<DrawCommand>;

    open spec fn view(&self) -> Seq<DrawCommand> {
        self.commands@
    }
}

impl RenderContext {
    /// A frame with no command yet.
    pub fn new() -> (r: RenderContext)
        ensures
            r@ == Seq::<DrawCommand>::empty(),
    {
        RenderContext { commands: Vec::new() }
    }

    /// Appends one command to the frame.
    pub fn submit(&mut self, command: DrawCommand)
        ensures
            final(self)@ == old(self)@.push(command),
    {
        self.commands.push(command);
    }
}

/// A behaviour that renders its entity.
///
/// A call either issues exactly one command, placed at the position it was
/// given, or fails and issues none. It reads the entity's state and never
/// changes it.
pub trait DrawSystem {
    /// What a call of `draw` with these arguments does: the command it
    /// issues, or the error it returns.
    spec fn outcome(
        &self,
        drawables: &Drawables,
        position: Vector2,
        lag: Scalar,
        physics_system: &Option<Box<dyn PhysicsSystem>>,
    ) -> Result<DrawCommand, DrawError>;

    /// Renders at `position`. The lag and the physics behaviour of the
    /// entity come along for behaviours whose picture depends on the motion.
    fn draw(
        &self,
        drawables: &Drawables,
        context: &mut RenderContext,
        position: &Vector2,
        lag: Scalar,
        physics_system: &Option<Box<dyn PhysicsSystem>>,
    ) -> (r: Result<(), DrawError>)
        ensures
            match self.outcome(drawables, *position, lag, physics_system) {
                Ok(command) => {
                    &&& r is Ok
                    &&& command.dest == *position
                    &&& final(context)@ == old(context)@.push(command)
                },
                Err(error) => {
                    &&& r == Err::<(), DrawError>(error)
                    &&& final(context)@ == old(context)@
                },
            },
    ;
}

} // verus!

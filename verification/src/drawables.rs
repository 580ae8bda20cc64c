//! The registry of renderable resources, as the simulation sees it.

use vstd::prelude::*;

verus! {

/// A handle to one renderable resource that the rendering backend has loaded.
#[derive(Clone, Copy, Debug, PartialEq, Eq, Structural)]
pub struct DrawableId {
    pub raw: u32,
}

/// The resources that draw behaviours may refer to, by name.
#[derive(Clone, Copy, Debug, PartialEq, Eq, Structural)]
pub struct Drawables {
    pub player: DrawableId,
}

} // verus!

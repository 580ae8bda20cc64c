//! Entity composition and fixed-timestep physics integration for a small
//! real-time simulation.
//!
//! An [`entity::Entity`] is a positioned rectangle that may own a physics
//! behaviour and a draw behaviour. All quantities are exact fixed-point
//! numbers ([`scalar::Scalar`]), so a simulation step gives the same result on
//! every machine.

pub mod scalar;
pub mod geometry;
pub mod physics_system;
pub mod drawables;
pub mod draw_system;
pub mod entity;
pub mod config;

//! Constants of the simulation, fixed at start-up.

use vstd::prelude::*;
use crate::geometry::Vector2;
use crate::scalar::{Scalar, SCALE};

verus! {

/// The update rate and the strength of gravity.
#[derive(Clone, Copy, Debug, PartialEq, Eq, Structural)]
pub struct Config {
    /// Fixed simulation steps per second; positive.
    pub target_update_fps: u32,
    /// Downward acceleration added to the velocity on each step.
    pub gravity_force: Scalar,
}

impl Default for Config {
    /// Fifty steps per second and a gravity of one tenth.
    fn default() -> (r: Config)
        ensures
            r.target_update_fps == 50,
            r.gravity_force@ == 100_000,
    {
        Config { target_update_fps: 50, gravity_force: Scalar::from_raw(100_000) }
    }
}

impl Config {
    /// The length of one fixed step in seconds, `1 / target_update_fps`,
    /// rounded down to a whole number of millionths.
    pub fn fixed_dt(&self) -> (dt: Scalar)
        requires
            self.target_update_fps > 0,
        ensures
            dt@ == (SCALE as int) / (self.target_update_fps as int),
    {
        Scalar::from_raw(SCALE / (self.target_update_fps as i64))
    }

    /// Gravity as a force: `gravity_force` along the y axis, which points
    /// down.
    pub fn gravity(&self) -> (g: Vector2)
        ensures
            g == (Vector2 { x: Scalar { raw: 0 }, y: self.gravity_force }),
    {
        Vector2::new(Scalar::zero(), self.gravity_force)
    }
}

} // verus!

//! A projectile under constant gravity and wind: the little simulation the
//! tuple algebra was built to drive. One tick moves the projectile by its
//! velocity and bends the velocity by gravity and wind; the surrounding
//! loop, with its printing, lives outside the library.

use crate::scalar::sum_fits;
use crate::tuples::{Point, Vector};
use vstd::prelude::*;

verus! {

/// A moving body: where it is and where it is headed.
pub struct Projectile {
    pub position: Point,
    pub velocity: Vector,
}

/// The unchanging surroundings: gravity and wind, both accelerations per
/// tick.
pub struct Environment {
    pub gravity: Vector,
    pub wind: Vector,
}

impl Projectile {
    /// A projectile at `position` moving with `velocity`.
    pub fn new(position: Point, velocity: Vector) -> (r: Self)
        ensures
            r.position == position,
            r.velocity == velocity,
    {
        Self { position, velocity }
    }

    /// One step of the simulation: the position advances by the velocity,
    /// and the velocity picks up gravity and wind.
    pub fn tick(&mut self, env: &Environment)
        requires
            sum_fits(old(self).position.x@, old(self).velocity.x@),
            sum_fits(old(self).position.y@, old(self).velocity.y@),
            sum_fits(old(self).position.z@, old(self).velocity.z@),
            sum_fits(old(self).velocity.x@, env.gravity.x@),
            sum_fits(old(self).velocity.y@, env.gravity.y@),
            sum_fits(old(self).velocity.z@, env.gravity.z@),
            sum_fits(old(self).velocity.x@ + env.gravity.x@, env.wind.x@),
            sum_fits(old(self).velocity.y@ + env.gravity.y@, env.wind.y@),
            sum_fits(old(self).velocity.z@ + env.gravity.z@, env.wind.z@),
        ensures
            final(self).position.x@ == old(self).position.x@ + old(self).velocity.x@,
            final(self).position.y@ == old(self).position.y@ + old(self).velocity.y@,
            final(self).position.z@ == old(self).position.z@ + old(self).velocity.z@,
            final(self).velocity.x@ == old(self).velocity.x@ + env.gravity.x@ + env.wind.x@,
            final(self).velocity.y@ == old(self).velocity.y@ + env.gravity.y@ + env.wind.y@,
            final(self).velocity.z@ == old(self).velocity.z@ + env.gravity.z@ + env.wind.z@,
    {
        self.position = self.position.add_vector(&self.velocity);
        self.velocity = self.velocity.add_vector(&env.gravity).add_vector(&env.wind);
    }
}

impl Environment {
    /// Surroundings with the given gravity and wind.
    pub fn new(gravity: Vector, wind: Vector) -> (r: Self)
        ensures
            r.gravity == gravity,
            r.wind == wind,
    {
        Self { gravity, wind }
    }
}

} // verus!

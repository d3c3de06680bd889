//! The records of a simulation: its bodies and the constants it runs under.

use vstd::prelude::*;
use crate::arithmetic::Arithmetic;

verus! {

/// One point mass.
#[derive(Debug)]
pub struct Body<A: Arithmetic> {
    /// Where the body is, in simulation space.
    pub position: A::Vector,
    /// How fast it moves.
    pub velocity: A::Vector,
    /// The pull that the last tick found on it, after the clamp.
    pub acceleration: A::Vector,
    /// Its mass, which no tick changes.
    pub mass: A::Scalar,
}

/// The constants of a simulation.
#[derive(Debug)]
pub struct Rules<A: Arithmetic> {
    /// The gravitational constant.
    pub gravitation: A::Scalar,
    /// The mass of the anchor body.
    pub anchor_mass: A::Scalar,
    /// The least mass of any other body.
    pub mass_from: A::Scalar,
    /// The bound below which the masses of the other bodies lie.
    pub mass_to: A::Scalar,
    /// The diameter of the galaxy.
    pub diameter: A::Scalar,
    /// What turns a second of elapsed time into simulated time.
    pub time_scale: A::Scalar,
    /// The magnitude of the velocity that a new body has.
    pub spin: A::Scalar,
    /// The greatest magnitude an acceleration is left with.
    pub acceleration_limit: A::Scalar,
    /// The greatest magnitude a velocity is left with.
    pub velocity_limit: A::Scalar,
    /// The separation up to which two bodies do not pull at each other.
    pub softening: A::Scalar,
}

impl<A: Arithmetic> Clone for Body<A> {
    fn clone(&self) -> (copy: Self)
        ensures
            copy == *self,
    {
        Body {
            position: self.position,
            velocity: self.velocity,
            acceleration: self.acceleration,
            mass: self.mass,
        }
    }
}

impl<A: Arithmetic> Copy for Body<A> {

}

impl<A: Arithmetic> Clone for Rules<A> {
    fn clone(&self) -> (copy: Self)
        ensures
            copy == *self,
    {
        Rules {
            gravitation: self.gravitation,
            anchor_mass: self.anchor_mass,
            mass_from: self.mass_from,
            mass_to: self.mass_to,
            diameter: self.diameter,
            time_scale: self.time_scale,
            spin: self.spin,
            acceleration_limit: self.acceleration_limit,
            velocity_limit: self.velocity_limit,
            softening: self.softening,
        }
    }
}

impl<A: Arithmetic> Copy for Rules<A> {

}

} // verus!

//! The per-tick physics of a population of point masses under mutual gravity:
//! pairwise pulls with a softening guard, integration under three magnitude
//! clamps with a pinned anchor body, and the mapping of positions into display
//! space.
//!
//! Verus has no model of floating-point numbers to prove such physics over,
//! so the library is written over an [`arithmetic::Arithmetic`] that the
//! embedding program supplies. Every contract says which operation was
//! applied to which values and which decision followed from which
//! comparison; what an operation returns is the arithmetic's own affair.
//! The [`laws`] say what follows for every tick.

pub mod arithmetic;
pub mod body;
pub mod clamp;
pub mod display;
pub mod force;
pub mod integrate;
pub mod laws;
pub mod population;
pub mod tick;

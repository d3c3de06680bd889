//! The integrator: one body's velocity and position, advanced under the
//! three magnitude clamps.

use vstd::prelude::*;
use crate::arithmetic::Arithmetic;
use crate::body::{Body, Rules};
use crate::clamp::{limit_length, limited};

verus! {

/// `v` is the velocity `velocity` after the clamped acceleration `a` was
/// added to it, as it stands and without a factor of time, and the sum was
/// held to the velocity limit.
pub open spec fn kicked<A: Arithmetic>(
    rules: &Rules<A>,
    velocity: A::Vector,
    a: A::Vector,
    v: A::Vector,
) -> bool {
    exists|raised: A::Vector|
        #![trigger call_ensures(A::sum, (velocity, a), raised)]
        {
            &&& call_ensures(A::sum, (velocity, a), raised)
            &&& limited::<A>(raised, rules.velocity_limit, v)
        }
}

/// `delta` is the step of a body per unit of scaled time: `v + a * 0.5`, the
/// half being the quotient of the numbers one and two.
pub open spec fn stepped<A: Arithmetic>(v: A::Vector, a: A::Vector, delta: A::Vector) -> bool {
    exists|one: A::Scalar, two: A::Scalar, half: A::Scalar, part: A::Vector|
        #![trigger call_ensures(A::quotient, (one, two), half), call_ensures(A::scaled, (a, half), part)]
        {
            &&& call_ensures(A::number, (1u32,), one)
            &&& call_ensures(A::number, (2u32,), two)
            &&& call_ensures(A::quotient, (one, two), half)
            &&& call_ensures(A::scaled, (a, half), part)
            &&& call_ensures(A::sum, (v, part), delta)
        }
}

/// `bound` is the magnitude that positions are held to: twice the diameter.
pub open spec fn is_position_bound<A: Arithmetic>(rules: &Rules<A>, bound: A::Scalar) -> bool {
    exists|two: A::Scalar|
        #![trigger call_ensures(A::product, (two, rules.diameter), bound)]
        {
            &&& call_ensures(A::number, (2u32,), two)
            &&& call_ensures(A::product, (two, rules.diameter), bound)
        }
}

/// `p` is the position `position` moved by `delta * (elapsed * time_scale)`
/// and then held to twice the diameter.
pub open spec fn drifted<A: Arithmetic>(
    rules: &Rules<A>,
    position: A::Vector,
    delta: A::Vector,
    elapsed: A::Scalar,
    p: A::Vector,
) -> bool {
    exists|factor: A::Scalar, shift: A::Vector, moved: A::Vector, bound: A::Scalar|
        #![trigger call_ensures(A::scaled, (delta, factor), shift), call_ensures(A::sum, (position, shift), moved), limited::<A>(moved, bound, p)]
        {
            &&& call_ensures(A::product, (elapsed, rules.time_scale), factor)
            &&& call_ensures(A::scaled, (delta, factor), shift)
            &&& call_ensures(A::sum, (position, shift), moved)
            &&& is_position_bound(rules, bound)
            &&& limited::<A>(moved, bound, p)
        }
}

/// `next` is `body` after one tick under the pull `pull`, with `elapsed`
/// seconds gone by:
///
/// 1. its acceleration is the pull, held to the acceleration limit;
/// 2. its velocity is the old velocity plus that acceleration,
/// 3. held to the velocity limit;
/// 4. its position is the old position moved by the step of the new velocity
///    and acceleration over the scaled time,
/// 5. held to twice the diameter;
///
/// and its mass is the old mass.
pub open spec fn advanced<A: Arithmetic>(
    rules: &Rules<A>,
    body: &Body<A>,
    pull: A::Vector,
    elapsed: A::Scalar,
    next: &Body<A>,
) -> bool {
    &&& next.mass == body.mass
    &&& limited::<A>(pull, rules.acceleration_limit, next.acceleration)
    &&& kicked(rules, body.velocity, next.acceleration, next.velocity)
    &&& exists|delta: A::Vector|
        #![trigger stepped::<A>(next.velocity, next.acceleration, delta)]
        {
            &&& stepped::<A>(next.velocity, next.acceleration, delta)
            &&& drifted(rules, body.position, delta, elapsed, next.position)
        }
}

/// Advances one body by one tick under the pull `pull`.
pub fn advance<A: Arithmetic>(
    rules: &Rules<A>,
    body: &Body<A>,
    pull: A::Vector,
    elapsed: A::Scalar,
) -> (next: Body<A>)
    ensures
        advanced(rules, body, pull, elapsed, &next),
{
    let acceleration = limit_length::<A>(pull, rules.acceleration_limit);
    let raised = A::sum(body.velocity, acceleration);
    let velocity = limit_length::<A>(raised, rules.velocity_limit);
    assert(kicked(rules, body.velocity, acceleration, velocity));

    let one = A::number(1);
    let two = A::number(2);
    let half = A::quotient(one, two);
    let part = A::scaled(acceleration, half);
    let delta = A::sum(velocity, part);
    assert(stepped::<A>(velocity, acceleration, delta));

    let factor = A::product(elapsed, rules.time_scale);
    let shift = A::scaled(delta, factor);
    let moved = A::sum(body.position, shift);
    let bound = A::product(two, rules.diameter);
    let position = limit_length::<A>(moved, bound);
    assert(drifted(rules, body.position, delta, elapsed, position));

    Body { position, velocity, acceleration, mass: body.mass }
}

} // verus!

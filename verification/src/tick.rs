//! One tick of the simulation.

use vstd::prelude::*;
use crate::arithmetic::{is_origin, origin, Arithmetic};
use crate::body::{Body, Rules};
use crate::display::{placed, placements};
use crate::force::{accelerations, gathered};
use crate::integrate::{advance, advanced};

verus! {

/// `next` is the anchor `moved` pinned: its position is an origin vector,
/// and the rest of it is as the integrator left it.
pub open spec fn pinned<A: Arithmetic>(moved: &Body<A>, next: &Body<A>) -> bool {
    &&& is_origin::<A>(next.position)
    &&& next.velocity == moved.velocity
    &&& next.acceleration == moved.acceleration
    &&& next.mass == moved.mass
}

/// `next` is the body at index `i` after the tick: its pull was gathered from
/// the positions in `before`, the integrator advanced it under that pull, and
/// the body at index 0, the anchor, was then pinned to the origin.
pub open spec fn settled<A: Arithmetic>(
    rules: &Rules<A>,
    before: Seq<Body<A>>,
    i: int,
    elapsed: A::Scalar,
    next: &Body<A>,
) -> bool {
    exists|pull: A::Vector, moved: Body<A>|
        #![trigger advanced(rules, &before[i], pull, elapsed, &moved)]
        {
            &&& gathered(rules, before, i, pull)
            &&& advanced(rules, &before[i], pull, elapsed, &moved)
            &&& if i == 0 {
                pinned(&moved, next)
            } else {
                *next == moved
            }
        }
}

/// `after` holds the bodies of `before` after one tick with `elapsed` seconds
/// gone by: as many bodies, each settled from the positions in `before`.
pub open spec fn ticked<A: Arithmetic>(
    rules: &Rules<A>,
    before: Seq<Body<A>>,
    elapsed: A::Scalar,
    after: Seq<Body<A>>,
) -> bool {
    &&& after.len() == before.len()
    &&& forall|i: int| 0 <= i < before.len() ==> settled(rules, before, i, elapsed, &#[trigger] after[i])
}

/// `states` holds the bodies of a run: `start` first, and then the bodies
/// after each tick, the ticks taking their elapsed times from `elapsed` in
/// order.
pub open spec fn ran<A: Arithmetic>(
    rules: &Rules<A>,
    start: Seq<Body<A>>,
    elapsed: Seq<A::Scalar>,
    states: Seq<Seq<Body<A>>>,
) -> bool {
    &&& states.len() == elapsed.len() + 1
    &&& states[0] == start
    &&& forall|k: int|
        0 <= k < elapsed.len() ==> ticked(rules, #[trigger] states[k], elapsed[k], states[k + 1])
}

/// Advances the bodies by one tick with `elapsed` seconds gone by, and
/// returns where each is then drawn.
///
/// Every pull is taken from the positions as they stand before the tick; no
/// body is moved until all pulls are known. The anchor is pinned after all
/// bodies have been advanced. A tick on no bodies does nothing.
pub fn tick<A: Arithmetic>(rules: &Rules<A>, bodies: &mut Vec<Body<A>>, elapsed: A::Scalar) -> (shown: Vec<
    A::Placement,
>)
    ensures
        ticked(rules, old(bodies)@, elapsed, final(bodies)@),
        old(bodies)@.len() > 0 ==> is_origin::<A>(final(bodies)@[0].position),
        placed(rules, final(bodies)@, shown@),
{
    let found = accelerations(rules, bodies);
    let mut next: Vec<Body<A>> = Vec::new();
    let mut i: usize = 0;
    while i < bodies.len()
        invariant
            i <= bodies.len(),
            next@.len() == i,
            found@.len() == bodies@.len(),
            forall|k: int| 0 <= k < bodies@.len() ==> gathered(rules, bodies@, k, #[trigger] found@[k]),
            forall|k: int|
                0 <= k < i ==> advanced(rules, &bodies@[k], found@[k], elapsed, &#[trigger] next@[k]),
        decreases bodies.len() - i,
    {
        let moved = advance(rules, &bodies[i], found[i], elapsed);
        next.push(moved);
        i += 1;
    }
    if next.len() > 0 {
        let anchor = Body {
            position: origin::<A>(),
            velocity: next[0].velocity,
            acceleration: next[0].acceleration,
            mass: next[0].mass,
        };
        next.set(0, anchor);
    }
    *bodies = next;
    placements(rules, bodies)
}

} // verus!

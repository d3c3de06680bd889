//! The force accumulator: the gravitational acceleration that the other
//! bodies exert on each body.

use vstd::prelude::*;
use crate::arithmetic::{is_origin, origin, Arithmetic};
use crate::body::{Body, Rules};

verus! {

/// `term` is the displacement `d` weighted for a source of mass `mass` at the
/// distance `r`: `d * (G * mass / r^3)`, the inverse-square law written over
/// the displacement instead of a unit vector.
pub open spec fn weighted<A: Arithmetic>(
    rules: &Rules<A>,
    d: A::Vector,
    r: A::Scalar,
    mass: A::Scalar,
    term: A::Vector,
) -> bool {
    exists|three: A::Scalar, cube: A::Scalar, weight: A::Scalar, factor: A::Scalar|
        #![trigger call_ensures(A::power, (r, three), cube), call_ensures(A::quotient, (weight, cube), factor)]
        {
            &&& call_ensures(A::number, (3u32,), three)
            &&& call_ensures(A::power, (r, three), cube)
            &&& call_ensures(A::product, (rules.gravitation, mass), weight)
            &&& call_ensures(A::quotient, (weight, cube), factor)
            &&& call_ensures(A::scaled, (d, factor), term)
        }
}

/// `term` is what `source` contributes to the acceleration of a body at
/// `target`: the displacement from the target to the source was measured and
/// its length compared with the softening threshold; where the length
/// exceeded the threshold, the contribution is the weighted displacement, and
/// otherwise there is none.
pub open spec fn pulls<A: Arithmetic>(
    rules: &Rules<A>,
    target: A::Vector,
    source: &Body<A>,
    term: Option<A::Vector>,
) -> bool {
    exists|d: A::Vector, r: A::Scalar, far: bool|
        #![trigger call_ensures(A::length, (d,), r), call_ensures(A::exceeds, (r, rules.softening), far)]
        {
            &&& call_ensures(A::difference, (source.position, target), d)
            &&& call_ensures(A::length, (d,), r)
            &&& call_ensures(A::exceeds, (r, rules.softening), far)
            &&& if far {
                term is Some && weighted(rules, d, r, source.mass, term->0)
            } else {
                term is None
            }
        }
}

/// `after` is the running sum `before` with the contribution `term` taken
/// in: added where there is one, and otherwise the sum as it was.
pub open spec fn taken_in<A: Arithmetic>(
    before: A::Vector,
    term: Option<A::Vector>,
    after: A::Vector,
) -> bool {
    match term {
        Some(t) => call_ensures(A::sum, (before, t), after),
        None => after == before,
    }
}

/// `after` is the running sum `before` once the source at index `j` has been
/// dealt with, for the target at index `i`: a body does not pull at itself,
/// and any other source has its contribution taken in.
pub open spec fn joined<A: Arithmetic>(
    rules: &Rules<A>,
    bodies: Seq<Body<A>>,
    i: int,
    j: int,
    before: A::Vector,
    after: A::Vector,
) -> bool {
    if j == i {
        after == before
    } else {
        exists|term: Option<A::Vector>|
            #![trigger pulls(rules, bodies[i].position, &bodies[j], term)]
            pulls(rules, bodies[i].position, &bodies[j], term) && taken_in::<A>(before, term, after)
    }
}

/// `sums` holds the running sums for the target at index `i`, one after each
/// source dealt with: the first is an origin vector, and each of the others
/// follows from the one before it by joining the next source, the sources
/// taken in ascending order of their index.
pub open spec fn running<A: Arithmetic>(
    rules: &Rules<A>,
    bodies: Seq<Body<A>>,
    i: int,
    sums: Seq<A::Vector>,
) -> bool {
    &&& 1 <= sums.len() <= bodies.len() + 1
    &&& is_origin::<A>(sums[0])
    &&& forall|j: int|
        0 <= j < sums.len() - 1 ==> joined(rules, bodies, i, j, #[trigger] sums[j], sums[j + 1])
}

/// `acc` is the acceleration of the body at index `i`: the last of the
/// running sums over all the sources.
pub open spec fn gathered<A: Arithmetic>(
    rules: &Rules<A>,
    bodies: Seq<Body<A>>,
    i: int,
    acc: A::Vector,
) -> bool {
    exists|sums: Seq<A::Vector>|
        #![trigger running(rules, bodies, i, sums)]
        {
            &&& running(rules, bodies, i, sums)
            &&& sums.len() == bodies.len() + 1
            &&& sums.last() == acc
        }
}

/// The contribution of `source` to the acceleration of a body at `target`, or
/// `None` where the two are within the softening threshold of each other.
pub fn pull<A: Arithmetic>(rules: &Rules<A>, target: A::Vector, source: &Body<A>) -> (term: Option<
    A::Vector,
>)
    ensures
        pulls(rules, target, source, term),
{
    let d = A::difference(source.position, target);
    let r = A::length(d);
    if A::exceeds(r, rules.softening) {
        let three = A::number(3);
        let cube = A::power(r, three);
        let weight = A::product(rules.gravitation, source.mass);
        let factor = A::quotient(weight, cube);
        Some(A::scaled(d, factor))
    } else {
        None
    }
}

/// The acceleration of the body at index `i` under the pull of all the others.
fn acceleration<A: Arithmetic>(rules: &Rules<A>, bodies: &Vec<Body<A>>, i: usize) -> (acc: A::Vector)
    requires
        i < bodies.len(),
    ensures
        gathered(rules, bodies@, i as int, acc),
{
    let mut acc = origin::<A>();
    let ghost mut sums: Seq<A::Vector> = seq![acc];
    let mut j: usize = 0;
    while j < bodies.len()
        invariant
            i < bodies.len(),
            j <= bodies.len(),
            running(rules, bodies@, i as int, sums),
            sums.len() == j + 1,
            sums.last() == acc,
        decreases bodies.len() - j,
    {
        if j != i {
            let term = pull(rules, bodies[i].position, &bodies[j]);
            match term {
                Some(t) => {
                    acc = A::sum(acc, t);
                },
                None => {},
            }
        }
        proof {
            sums = sums.push(acc);
        }
        j += 1;
    }
    acc
}

/// One acceleration for each body, in the order of the bodies: the pull of
/// every other body on it, taken from the positions as they stand.
pub fn accelerations<A: Arithmetic>(rules: &Rules<A>, bodies: &Vec<Body<A>>) -> (out: Vec<A::Vector>)
    ensures
        out@.len() == bodies@.len(),
        forall|i: int| 0 <= i < bodies@.len() ==> gathered(rules, bodies@, i, #[trigger] out@[i]),
{
    let mut out: Vec<A::Vector> = Vec::new();
    let mut i: usize = 0;
    while i < bodies.len()
        invariant
            i <= bodies.len(),
            out@.len() == i,
            forall|k: int| 0 <= k < i ==> gathered(rules, bodies@, k, #[trigger] out@[k]),
        decreases bodies.len() - i,
    {
        let acc = acceleration(rules, bodies, i);
        out.push(acc);
        i += 1;
    }
    out
}

} // verus!

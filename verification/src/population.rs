//! The initial population: an anchor at the origin and, around it, bodies
//! scattered through a flattened cuboid, each set spinning.

use vstd::prelude::*;
use crate::arithmetic::{is_origin, origin, Arithmetic};
use crate::body::{Body, Rules};

verus! {

/// A source of random scalars.
///
/// A draw uses the sampler up and hands back the sampler to draw from next,
/// so that a population's contract can say which draw came after which.
/// Like the operations of an [`Arithmetic`], `uniform` carries no contract:
/// the library proves from which range each number of a population was
/// asked, and in which order, not what was drawn.
pub trait Sampler<A: Arithmetic>: Sized {
    /// A scalar drawn uniformly from `low` up to `high`, with the sampler
    /// for the next draw.
    fn uniform(self, low: A::Scalar, high: A::Scalar) -> (Self, A::Scalar);
}

/// `v` is the spin of a body for which `x` and `y` were drawn:
/// `spin * (cos t, sin t, 0)`, where `t` is the arctangent of `x` over `y`:
/// the angle that the body's place makes with the y axis.
pub open spec fn spun<A: Arithmetic>(rules: &Rules<A>, x: A::Scalar, y: A::Scalar, v: A::Vector) -> bool {
    exists|angle: A::Scalar, c: A::Scalar, s: A::Scalar, vx: A::Scalar, vy: A::Scalar, zero: A::Scalar|
        #![trigger call_ensures(A::cosine, (angle,), c), call_ensures(A::sine, (angle,), s), call_ensures(A::vector, (vx, vy, zero), v)]
        {
            &&& call_ensures(A::arctangent, (x, y), angle)
            &&& call_ensures(A::cosine, (angle,), c)
            &&& call_ensures(A::product, (c, rules.spin), vx)
            &&& call_ensures(A::sine, (angle,), s)
            &&& call_ensures(A::product, (s, rules.spin), vy)
            &&& call_ensures(A::number, (0u32,), zero)
            &&& call_ensures(A::vector, (vx, vy, zero), v)
        }
}

/// `body` is the body made of the drawn coordinates `x`, `y`, `z` and the
/// drawn mass `mass`: it stands where the coordinates say, and its velocity
/// and its acceleration are both its spin.
pub open spec fn is_star<A: Arithmetic>(
    rules: &Rules<A>,
    x: A::Scalar,
    y: A::Scalar,
    z: A::Scalar,
    mass: A::Scalar,
    body: &Body<A>,
) -> bool {
    &&& call_ensures(A::vector, (x, y, z), body.position)
    &&& spun(rules, x, y, body.velocity)
    &&& body.acceleration == body.velocity
    &&& body.mass == mass
}

/// `body` is the anchor for which `x` and `y` were drawn: it stands at the
/// origin with the anchor's mass, and spins as a body at `(x, y)` would.
pub open spec fn is_anchor<A: Arithmetic>(
    rules: &Rules<A>,
    x: A::Scalar,
    y: A::Scalar,
    body: &Body<A>,
) -> bool {
    &&& is_origin::<A>(body.position)
    &&& spun(rules, x, y, body.velocity)
    &&& body.acceleration == body.velocity
    &&& body.mass == rules.anchor_mass
}

/// `low` and `high` bound the range that `x` and `y` are drawn from,
/// `-diameter` up to `diameter`, and `low_z` and `high_z` the range that `z`
/// is drawn from, a tenth of it.
pub open spec fn is_cuboid<A: Arithmetic>(
    rules: &Rules<A>,
    low: A::Scalar,
    high: A::Scalar,
    low_z: A::Scalar,
    high_z: A::Scalar,
) -> bool {
    exists|ten: A::Scalar|
        #![trigger call_ensures(A::quotient, (low, ten), low_z)]
        {
            &&& call_ensures(A::negated, (rules.diameter,), low)
            &&& high == rules.diameter
            &&& call_ensures(A::number, (10u32,), ten)
            &&& call_ensures(A::quotient, (low, ten), low_z)
            &&& call_ensures(A::quotient, (rules.diameter, ten), high_z)
        }
}

/// `x`, `y` and `z` are the coordinates drawn for one body, in this order,
/// from the cuboid of the rules; the draws took the sampler from `before` to
/// `after`.
pub open spec fn scattered<A: Arithmetic, R: Sampler<A>>(
    rules: &Rules<A>,
    before: R,
    x: A::Scalar,
    y: A::Scalar,
    z: A::Scalar,
    after: R,
) -> bool {
    exists|low: A::Scalar, high: A::Scalar, low_z: A::Scalar, high_z: A::Scalar, first: R, second: R|
        #![trigger call_ensures(R::uniform, (before, low, high), (first, x)), call_ensures(R::uniform, (second, low_z, high_z), (after, z))]
        {
            &&& is_cuboid(rules, low, high, low_z, high_z)
            &&& call_ensures(R::uniform, (before, low, high), (first, x))
            &&& call_ensures(R::uniform, (first, low, high), (second, y))
            &&& call_ensures(R::uniform, (second, low_z, high_z), (after, z))
        }
}

/// `body` is the body that a population has at index `index`, and making it
/// took the sampler from `before` to `after`: coordinates were drawn for it;
/// at index 0 it is the anchor, and at any other index a mass was then drawn
/// for it as well, from the range of the rules.
pub open spec fn born<A: Arithmetic, R: Sampler<A>>(
    rules: &Rules<A>,
    index: int,
    before: R,
    body: &Body<A>,
    after: R,
) -> bool {
    exists|x: A::Scalar, y: A::Scalar, z: A::Scalar, placed: R|
        #![trigger scattered(rules, before, x, y, z, placed)]
        {
            &&& scattered(rules, before, x, y, z, placed)
            &&& if index == 0 {
                is_anchor(rules, x, y, body) && after == placed
            } else {
                exists|mass: A::Scalar|
                    #![trigger is_star(rules, x, y, z, mass, body)]
                    {
                        &&& call_ensures(R::uniform, (placed, rules.mass_from, rules.mass_to), (after, mass))
                        &&& is_star(rules, x, y, z, mass, body)
                    }
            }
        }
}

/// `samplers` holds the sampler before each body of `bodies` was made and,
/// last, the one that was left: each body was born of the sampler at its
/// index, which left the next.
pub open spec fn drawn_in_turn<A: Arithmetic, R: Sampler<A>>(
    rules: &Rules<A>,
    samplers: Seq<R>,
    bodies: Seq<Body<A>>,
) -> bool {
    &&& samplers.len() == bodies.len() + 1
    &&& forall|i: int|
        0 <= i < bodies.len() ==> born(rules, i, #[trigger] samplers[i], &bodies[i], samplers[i + 1])
}

/// `bodies` is a population of `count` bodies, drawn body after body from
/// `sampler`, and `rest` is the sampler that the draws left.
pub open spec fn populated<A: Arithmetic, R: Sampler<A>>(
    rules: &Rules<A>,
    sampler: R,
    count: int,
    bodies: Seq<Body<A>>,
    rest: R,
) -> bool {
    &&& bodies.len() == count
    &&& exists|samplers: Seq<R>|
        #![trigger drawn_in_turn(rules, samplers, bodies)]
        {
            &&& drawn_in_turn(rules, samplers, bodies)
            &&& samplers[0] == sampler
            &&& samplers.last() == rest
        }
}

/// The spin of a body for which `x` and `y` were drawn.
fn spin<A: Arithmetic>(rules: &Rules<A>, x: A::Scalar, y: A::Scalar) -> (v: A::Vector)
    ensures
        spun(rules, x, y, v),
{
    let angle = A::arctangent(x, y);
    let c = A::cosine(angle);
    let vx = A::product(c, rules.spin);
    let s = A::sine(angle);
    let vy = A::product(s, rules.spin);
    let zero = A::number(0);
    A::vector(vx, vy, zero)
}

/// The body made of the drawn coordinates `x`, `y`, `z` and the drawn mass
/// `mass`.
pub fn star<A: Arithmetic>(
    rules: &Rules<A>,
    x: A::Scalar,
    y: A::Scalar,
    z: A::Scalar,
    mass: A::Scalar,
) -> (body: Body<A>)
    ensures
        is_star(rules, x, y, z, mass, &body),
{
    let position = A::vector(x, y, z);
    let acceleration = spin(rules, x, y);
    Body { position, velocity: acceleration, acceleration, mass }
}

/// The anchor for which `x` and `y` were drawn.
pub fn anchor<A: Arithmetic>(rules: &Rules<A>, x: A::Scalar, y: A::Scalar) -> (body: Body<A>)
    ensures
        is_anchor(rules, x, y, &body),
{
    let position = origin::<A>();
    let acceleration = spin(rules, x, y);
    Body { position, velocity: acceleration, acceleration, mass: rules.anchor_mass }
}

/// A population of `count` bodies, the anchor first, with the sampler that
/// the draws left.
///
/// For every body three coordinates are drawn, for the anchor too, which
/// takes its spin from them; then a mass is drawn for every body but the
/// anchor.
pub fn populate<A: Arithmetic, R: Sampler<A>>(rules: &Rules<A>, count: usize, sampler: R) -> (made: (
    Vec<Body<A>>,
    R,
))
    ensures
        populated(rules, sampler, count as int, made.0@, made.1),
{
    let mut bodies: Vec<Body<A>> = Vec::new();
    let mut current = sampler;
    let ghost mut samplers: Seq<R> = seq![sampler];
    let mut i: usize = 0;
    while i < count
        invariant
            i <= count,
            bodies@.len() == i,
            drawn_in_turn(rules, samplers, bodies@),
            samplers[0] == sampler,
            samplers.last() == current,
        decreases count - i,
    {
        let ghost before = current;
        let low = A::negated(rules.diameter);
        let high = rules.diameter;
        let ten = A::number(10);
        let low_z = A::quotient(low, ten);
        let high_z = A::quotient(rules.diameter, ten);
        assert(is_cuboid(rules, low, high, low_z, high_z));
        let (first, x) = current.uniform(low, high);
        let (second, y) = first.uniform(low, high);
        let (placed, z) = second.uniform(low_z, high_z);
        assert(scattered(rules, before, x, y, z, placed));
        let body;
        if i == 0 {
            body = anchor(rules, x, y);
            current = placed;
        } else {
            let (weighed, mass) = placed.uniform(rules.mass_from, rules.mass_to);
            body = star(rules, x, y, z, mass);
            current = weighed;
        }
        assert(born(rules, i as int, before, &body, current));
        bodies.push(body);
        proof {
            samplers = samplers.push(current);
        }
        i += 1;
    }
    (bodies, current)
}

} // verus!

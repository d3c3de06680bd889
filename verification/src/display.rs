//! The display mapper: simulation-space positions brought into the range
//! that the renderer draws.
//!
//! The mapping is the fixed one: the scale is `1000 / diameter` and the
//! offset is the origin, whatever the bodies' positions are. No bounding box
//! of the population enters into it.

use vstd::prelude::*;
use crate::arithmetic::{is_origin, origin, Arithmetic};
use crate::body::{Body, Rules};

verus! {

/// `placement` is where a body at `position` is drawn:
/// `(position - origin) * (1000 / diameter)`, narrowed to the renderer's
/// precision.
pub open spec fn projected<A: Arithmetic>(
    rules: &Rules<A>,
    position: A::Vector,
    placement: A::Placement,
) -> bool {
    exists|offset: A::Vector, extent: A::Scalar, scale: A::Scalar, shifted: A::Vector, shown: A::Vector|
        #![trigger call_ensures(A::difference, (position, offset), shifted), call_ensures(A::quotient, (extent, rules.diameter), scale), call_ensures(A::scaled, (shifted, scale), shown)]
        {
            &&& is_origin::<A>(offset)
            &&& call_ensures(A::number, (1000u32,), extent)
            &&& call_ensures(A::quotient, (extent, rules.diameter), scale)
            &&& call_ensures(A::difference, (position, offset), shifted)
            &&& call_ensures(A::scaled, (shifted, scale), shown)
            &&& call_ensures(A::narrowed, (shown,), placement)
        }
}

/// `placements` holds one placement for each body, in the order of the
/// bodies.
pub open spec fn placed<A: Arithmetic>(
    rules: &Rules<A>,
    bodies: Seq<Body<A>>,
    placements: Seq<A::Placement>,
) -> bool {
    &&& placements.len() == bodies.len()
    &&& forall|i: int|
        0 <= i < bodies.len() ==> projected(rules, bodies[i].position, #[trigger] placements[i])
}

/// Where a body at `position` is drawn.
pub fn project<A: Arithmetic>(rules: &Rules<A>, position: A::Vector) -> (placement: A::Placement)
    ensures
        projected(rules, position, placement),
{
    let offset = origin::<A>();
    let extent = A::number(1000);
    let scale = A::quotient(extent, rules.diameter);
    let shifted = A::difference(position, offset);
    let shown = A::scaled(shifted, scale);
    A::narrowed(shown)
}

/// One placement for each body, in the order of the bodies. The bodies are
/// only read.
pub fn placements<A: Arithmetic>(rules: &Rules<A>, bodies: &Vec<Body<A>>) -> (out: Vec<A::Placement>)
    ensures
        placed(rules, bodies@, out@),
{
    let mut out: Vec<A::Placement> = Vec::new();
    let mut i: usize = 0;
    while i < bodies.len()
        invariant
            i <= bodies.len(),
            out@.len() == i,
            forall|k: int| 0 <= k < i ==> projected(rules, bodies@[k].position, #[trigger] out@[k]),
        decreases bodies.len() - i,
    {
        let placement = project(rules, bodies[i].position);
        out.push(placement);
        i += 1;
    }
    out
}

} // verus!

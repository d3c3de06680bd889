//! What holds of every tick and of every population, whatever the bodies.
//!
//! The laws on the anchor, on softening and on what a tick keeps hold of
//! every arithmetic. Those on repeated runs hold where the arithmetic is a
//! function, and those on the clamps where it also rescales without error;
//! each names its premise.

use vstd::prelude::*;
use crate::arithmetic::{deterministic, is_origin, Arithmetic};
use crate::body::{Body, Rules};
use crate::clamp::limited;
use crate::display::{placed, projected};
use crate::force::{gathered, joined, pulls, running};
use crate::integrate::{advanced, is_position_bound, kicked};
use crate::population::{born, drawn_in_turn, populated, Sampler};
use crate::tick::{ran, settled, ticked};

verus! {

/// No measurement of the length of `v` exceeds `limit`.
pub open spec fn within<A: Arithmetic>(v: A::Vector, limit: A::Scalar) -> bool {
    forall|len: A::Scalar|
        #![trigger call_ensures(A::length, (v,), len)]
        call_ensures(A::length, (v,), len) ==> !call_ensures(A::exceeds, (len, limit), true)
}

/// No measurement of the separation between a body at `target` and `source`
/// exceeds the softening threshold.
pub open spec fn within_softening<A: Arithmetic>(
    rules: &Rules<A>,
    target: A::Vector,
    source: &Body<A>,
) -> bool {
    forall|d: A::Vector|
        #![trigger call_ensures(A::difference, (source.position, target), d)]
        call_ensures(A::difference, (source.position, target), d) ==> within::<A>(d, rules.softening)
}

/// The number zero does not exceed `limit`.
pub open spec fn not_negative<A: Arithmetic>(limit: A::Scalar) -> bool {
    forall|zero: A::Scalar|
        #![trigger call_ensures(A::number, (0u32,), zero)]
        call_ensures(A::number, (0u32,), zero) ==> !call_ensures(A::exceeds, (zero, limit), true)
}

/// The arithmetic rescales without error: a vector that is longer than a
/// limit which is not negative, once brought to unit length and scaled by
/// the limit, is within the limit; and so is an origin vector.
///
/// This is so of the real numbers. It is not so of floating-point numbers,
/// where the rescaled vector may come out longer than the limit by a
/// rounding error.
pub open spec fn rescales_exactly<A: Arithmetic>() -> bool {
    &&& forall|v: A::Vector, limit: A::Scalar, len: A::Scalar, u: A::Vector, r: A::Vector|
        #![trigger call_ensures(A::length, (v,), len), call_ensures(A::unit, (v,), u), call_ensures(A::scaled, (u, limit), r)]
        {
            &&& call_ensures(A::length, (v,), len)
            &&& call_ensures(A::exceeds, (len, limit), true)
            &&& call_ensures(A::unit, (v,), u)
            &&& call_ensures(A::scaled, (u, limit), r)
            &&& not_negative::<A>(limit)
        } ==> within::<A>(r, limit)
    &&& forall|p: A::Vector, limit: A::Scalar|
        #![trigger is_origin::<A>(p), not_negative::<A>(limit)]
        is_origin::<A>(p) && not_negative::<A>(limit) ==> within::<A>(p, limit)
}

/// Anchor pin: after a tick on at least one body, the body at index 0 stands
/// at the origin, whatever its velocity and acceleration were and are.
pub proof fn anchor_is_pinned<A: Arithmetic>(
    rules: &Rules<A>,
    before: Seq<Body<A>>,
    elapsed: A::Scalar,
    after: Seq<Body<A>>,
)
    requires
        ticked(rules, before, elapsed, after),
        before.len() > 0,
    ensures
        is_origin::<A>(after[0].position),
{
    assert(settled(rules, before, 0, elapsed, &after[0]));
}

/// Anchor pin, over a run: after every tick of a run on at least one body,
/// the body at index 0 stands at the origin.
pub proof fn anchor_stays_pinned<A: Arithmetic>(
    rules: &Rules<A>,
    start: Seq<Body<A>>,
    elapsed: Seq<A::Scalar>,
    states: Seq<Seq<Body<A>>>,
    k: int,
)
    requires
        ran(rules, start, elapsed, states),
        start.len() > 0,
        1 <= k <= elapsed.len(),
    ensures
        states[k].len() == start.len(),
        is_origin::<A>(states[k][0].position),
    decreases k,
{
    if k > 1 {
        anchor_stays_pinned(rules, start, elapsed, states, k - 1);
    }
    assert(ticked(rules, states[k - 1], elapsed[k - 1], states[k - 1 + 1]));
    anchor_is_pinned(rules, states[k - 1], elapsed[k - 1], states[k]);
}

/// Softening: a source within the softening threshold of a target
/// contributes nothing to the target's acceleration.
pub proof fn softened_pair_contributes_nothing<A: Arithmetic>(
    rules: &Rules<A>,
    target: A::Vector,
    source: &Body<A>,
    term: Option<A::Vector>,
)
    requires
        within_softening(rules, target, source),
        pulls(rules, target, source, term),
    ensures
        term is None,
{
}

/// Softening, in the sum: joining a source that is within the softening
/// threshold of the target leaves the target's running sum as it was.
pub proof fn softened_pair_leaves_sum<A: Arithmetic>(
    rules: &Rules<A>,
    bodies: Seq<Body<A>>,
    i: int,
    j: int,
    before: A::Vector,
    after: A::Vector,
)
    requires
        0 <= i < bodies.len(),
        0 <= j < bodies.len(),
        within_softening(rules, bodies[i].position, &bodies[j]),
        joined(rules, bodies, i, j, before, after),
    ensures
        after == before,
{
    assert forall|term: Option<A::Vector>|
        pulls(rules, bodies[i].position, &bodies[j], term) implies term is None by {
        softened_pair_contributes_nothing(rules, bodies[i].position, &bodies[j], term);
    }
}

/// A tick keeps the number of bodies and the mass of each.
pub proof fn tick_keeps_population<A: Arithmetic>(
    rules: &Rules<A>,
    before: Seq<Body<A>>,
    elapsed: A::Scalar,
    after: Seq<Body<A>>,
)
    requires
        ticked(rules, before, elapsed, after),
    ensures
        after.len() == before.len(),
        forall|i: int| 0 <= i < before.len() ==> (#[trigger] after[i]).mass == before[i].mass,
{
    assert forall|i: int| 0 <= i < before.len() implies (#[trigger] after[i]).mass == before[i].mass by {
        assert(settled(rules, before, i, elapsed, &after[i]));
    }
}

/// The clamp, in an arithmetic that is a function and rescales without
/// error: what `limit_length` returns for a limit that is not negative is
/// within the limit.
pub proof fn clamped_is_within<A: Arithmetic>(v: A::Vector, limit: A::Scalar, r: A::Vector)
    requires
        deterministic::<A>(),
        rescales_exactly::<A>(),
        not_negative::<A>(limit),
        limited::<A>(v, limit, r),
    ensures
        within::<A>(r, limit),
{
}

/// Clamp invariants, in an arithmetic that is a function and rescales
/// without error, under limits that are not negative: after a tick, the
/// acceleration of every body is within the acceleration limit, its velocity
/// within the velocity limit, and its position within twice the diameter.
pub proof fn clamps_hold_after_tick<A: Arithmetic>(
    rules: &Rules<A>,
    before: Seq<Body<A>>,
    elapsed: A::Scalar,
    after: Seq<Body<A>>,
    i: int,
    bound: A::Scalar,
)
    requires
        deterministic::<A>(),
        rescales_exactly::<A>(),
        not_negative::<A>(rules.acceleration_limit),
        not_negative::<A>(rules.velocity_limit),
        is_position_bound(rules, bound),
        not_negative::<A>(bound),
        ticked(rules, before, elapsed, after),
        0 <= i < before.len(),
    ensures
        within::<A>(after[i].acceleration, rules.acceleration_limit),
        within::<A>(after[i].velocity, rules.velocity_limit),
        within::<A>(after[i].position, bound),
{
    assert(settled(rules, before, i, elapsed, &after[i]));
    assert forall|pull: A::Vector, moved: Body<A>|
        advanced(rules, &before[i], pull, elapsed, &moved) implies {
        &&& within::<A>(moved.acceleration, rules.acceleration_limit)
        &&& within::<A>(moved.velocity, rules.velocity_limit)
        &&& within::<A>(moved.position, bound)
    } by {
        advance_is_clamped(rules, &before[i], pull, elapsed, &moved, bound);
    }
}

/// What the integrator leaves of a body is within the three limits.
proof fn advance_is_clamped<A: Arithmetic>(
    rules: &Rules<A>,
    body: &Body<A>,
    pull: A::Vector,
    elapsed: A::Scalar,
    next: &Body<A>,
    bound: A::Scalar,
)
    requires
        deterministic::<A>(),
        rescales_exactly::<A>(),
        not_negative::<A>(rules.acceleration_limit),
        not_negative::<A>(rules.velocity_limit),
        is_position_bound(rules, bound),
        not_negative::<A>(bound),
        advanced(rules, body, pull, elapsed, next),
    ensures
        within::<A>(next.acceleration, rules.acceleration_limit),
        within::<A>(next.velocity, rules.velocity_limit),
        within::<A>(next.position, bound),
{
    clamped_is_within::<A>(pull, rules.acceleration_limit, next.acceleration);
    assert forall|raised: A::Vector|
        limited::<A>(raised, rules.velocity_limit, next.velocity) implies within::<A>(
        next.velocity,
        rules.velocity_limit,
    ) by {
        clamped_is_within::<A>(raised, rules.velocity_limit, next.velocity);
    }
    assert(kicked(rules, body.velocity, next.acceleration, next.velocity));
    assert forall|moved: A::Vector, other: A::Scalar|
        is_position_bound(rules, other) && limited::<A>(moved, other, next.position) implies within::<A>(
        next.position,
        bound,
    ) by {
        assert(other == bound);
        clamped_is_within::<A>(moved, bound, next.position);
    }
}

/// Determinism: where every operation of the arithmetic is a function, so
/// is the tick. Two ticks from the same bodies with the same elapsed time
/// leave the same bodies, field by field.
pub proof fn tick_is_deterministic<A: Arithmetic>(
    rules: &Rules<A>,
    before: Seq<Body<A>>,
    elapsed: A::Scalar,
    after1: Seq<Body<A>>,
    after2: Seq<Body<A>>,
)
    requires
        deterministic::<A>(),
        ticked(rules, before, elapsed, after1),
        ticked(rules, before, elapsed, after2),
    ensures
        after1 == after2,
{
    assert forall|i: int| 0 <= i < before.len() implies after1[i] == after2[i] by {
        assert(settled(rules, before, i, elapsed, &after1[i]));
        assert(settled(rules, before, i, elapsed, &after2[i]));
        settled_is_one(rules, before, i, elapsed, &after1[i], &after2[i]);
    }
    assert(after1 =~= after2);
}

/// Determinism, over a run: where every operation of the arithmetic is a
/// function, two runs from the same bodies with the same elapsed times pass
/// through the same bodies after each tick.
pub proof fn runs_are_deterministic<A: Arithmetic>(
    rules: &Rules<A>,
    start: Seq<Body<A>>,
    elapsed: Seq<A::Scalar>,
    states1: Seq<Seq<Body<A>>>,
    states2: Seq<Seq<Body<A>>>,
)
    requires
        deterministic::<A>(),
        ran(rules, start, elapsed, states1),
        ran(rules, start, elapsed, states2),
    ensures
        states1 == states2,
{
    assert forall|k: int| 0 <= k < states1.len() implies states1[k] == states2[k] by {
        run_is_one(rules, start, elapsed, states1, states2, k);
    }
    assert(states1 =~= states2);
}

/// Determinism, of the display: where every operation of the arithmetic is a
/// function, the same bodies are drawn at the same places.
pub proof fn placements_are_deterministic<A: Arithmetic>(
    rules: &Rules<A>,
    bodies: Seq<Body<A>>,
    shown1: Seq<A::Placement>,
    shown2: Seq<A::Placement>,
)
    requires
        deterministic::<A>(),
        placed(rules, bodies, shown1),
        placed(rules, bodies, shown2),
    ensures
        shown1 == shown2,
{
    assert forall|i: int| 0 <= i < bodies.len() implies shown1[i] == shown2[i] by {
        assert(projected(rules, bodies[i].position, shown1[i]));
        assert(projected(rules, bodies[i].position, shown2[i]));
    }
    assert(shown1 =~= shown2);
}

/// The sampler is a function: the same sampler, asked for the same range,
/// never gives two draws.
///
/// This is so of a generator that runs from a seed, and not of one that
/// takes its numbers from outside the program.
pub open spec fn repeatable<A: Arithmetic, R: Sampler<A>>() -> bool {
    forall|s: R, low: A::Scalar, high: A::Scalar, r1: (R, A::Scalar), r2: (R, A::Scalar)|
        #![trigger call_ensures(R::uniform, (s, low, high), r1), call_ensures(R::uniform, (s, low, high), r2)]
        call_ensures(R::uniform, (s, low, high), r1) && call_ensures(R::uniform, (s, low, high), r2)
            ==> r1 == r2
}

/// Determinism, of the population: where the arithmetic and the sampler are
/// functions, two populations of one size drawn from the same sampler are
/// the same, and leave the same sampler.
pub proof fn population_is_deterministic<A: Arithmetic, R: Sampler<A>>(
    rules: &Rules<A>,
    sampler: R,
    count: int,
    bodies1: Seq<Body<A>>,
    rest1: R,
    bodies2: Seq<Body<A>>,
    rest2: R,
)
    requires
        deterministic::<A>(),
        repeatable::<A, R>(),
        populated(rules, sampler, count, bodies1, rest1),
        populated(rules, sampler, count, bodies2, rest2),
    ensures
        bodies1 == bodies2,
        rest1 == rest2,
{
    assert forall|s1: Seq<R>, s2: Seq<R>|
        drawn_in_turn(rules, s1, bodies1) && s1[0] == sampler && drawn_in_turn(rules, s2, bodies2)
            && s2[0] == sampler implies s1.last() == s2.last() && bodies1 =~= bodies2 by {
        drawn_is_one(rules, s1, bodies1, s2, bodies2, count);
        assert forall|i: int| 0 <= i < count implies bodies1[i] == bodies2[i] by {
            drawn_is_one(rules, s1, bodies1, s2, bodies2, i + 1);
        }
    }
}

/// Two populations drawn from the same sampler agree in their first `k`
/// bodies and in the sampler that these left.
proof fn drawn_is_one<A: Arithmetic, R: Sampler<A>>(
    rules: &Rules<A>,
    s1: Seq<R>,
    bodies1: Seq<Body<A>>,
    s2: Seq<R>,
    bodies2: Seq<Body<A>>,
    k: int,
)
    requires
        deterministic::<A>(),
        repeatable::<A, R>(),
        drawn_in_turn(rules, s1, bodies1),
        drawn_in_turn(rules, s2, bodies2),
        s1[0] == s2[0],
        0 <= k <= bodies1.len(),
        k <= bodies2.len(),
    ensures
        s1[k] == s2[k],
        k > 0 ==> bodies1[k - 1] == bodies2[k - 1],
    decreases k,
{
    if k > 0 {
        drawn_is_one(rules, s1, bodies1, s2, bodies2, k - 1);
        assert(born(rules, k - 1, s1[k - 1], &bodies1[k - 1], s1[k - 1 + 1]));
        assert(born(rules, k - 1, s2[k - 1], &bodies2[k - 1], s2[k - 1 + 1]));
        born_is_one(rules, k - 1, s1[k - 1], &bodies1[k - 1], s1[k], &bodies2[k - 1], s2[k]);
    }
}

/// A body is born of a sampler in one way.
proof fn born_is_one<A: Arithmetic, R: Sampler<A>>(
    rules: &Rules<A>,
    index: int,
    before: R,
    b1: &Body<A>,
    after1: R,
    b2: &Body<A>,
    after2: R,
)
    requires
        deterministic::<A>(),
        repeatable::<A, R>(),
        born(rules, index, before, b1, after1),
        born(rules, index, before, b2, after2),
    ensures
        *b1 == *b2,
        after1 == after2,
{
}

/// A clamp has one result.
proof fn limited_is_one<A: Arithmetic>(v: A::Vector, limit: A::Scalar, r1: A::Vector, r2: A::Vector)
    requires
        deterministic::<A>(),
        limited::<A>(v, limit, r1),
        limited::<A>(v, limit, r2),
    ensures
        r1 == r2,
{
}

/// A source has one contribution.
proof fn pull_is_one<A: Arithmetic>(
    rules: &Rules<A>,
    target: A::Vector,
    source: &Body<A>,
    t1: Option<A::Vector>,
    t2: Option<A::Vector>,
)
    requires
        deterministic::<A>(),
        pulls(rules, target, source, t1),
        pulls(rules, target, source, t2),
    ensures
        t1 == t2,
{
}

/// Joining a source to a running sum has one result.
proof fn joined_is_one<A: Arithmetic>(
    rules: &Rules<A>,
    bodies: Seq<Body<A>>,
    i: int,
    j: int,
    before: A::Vector,
    a1: A::Vector,
    a2: A::Vector,
)
    requires
        deterministic::<A>(),
        joined(rules, bodies, i, j, before, a1),
        joined(rules, bodies, i, j, before, a2),
    ensures
        a1 == a2,
{
    assert forall|t1: Option<A::Vector>, t2: Option<A::Vector>|
        pulls(rules, bodies[i].position, &bodies[j], t1) && pulls(
            rules,
            bodies[i].position,
            &bodies[j],
            t2,
        ) implies t1 == t2 by {
        pull_is_one(rules, bodies[i].position, &bodies[j], t1, t2);
    }
}

/// Two sequences of running sums for one target agree as far as both go.
proof fn running_is_one<A: Arithmetic>(
    rules: &Rules<A>,
    bodies: Seq<Body<A>>,
    i: int,
    s1: Seq<A::Vector>,
    s2: Seq<A::Vector>,
    k: int,
)
    requires
        deterministic::<A>(),
        running(rules, bodies, i, s1),
        running(rules, bodies, i, s2),
        0 <= k < s1.len(),
        k < s2.len(),
    ensures
        s1[k] == s2[k],
    decreases k,
{
    if k > 0 {
        running_is_one(rules, bodies, i, s1, s2, k - 1);
        assert(joined(rules, bodies, i, k - 1, s1[k - 1], s1[k - 1 + 1]));
        assert(joined(rules, bodies, i, k - 1, s2[k - 1], s2[k - 1 + 1]));
        joined_is_one(rules, bodies, i, k - 1, s1[k - 1], s1[k], s2[k]);
    }
}

/// A body has one acceleration.
proof fn gathered_is_one<A: Arithmetic>(
    rules: &Rules<A>,
    bodies: Seq<Body<A>>,
    i: int,
    a1: A::Vector,
    a2: A::Vector,
)
    requires
        deterministic::<A>(),
        gathered(rules, bodies, i, a1),
        gathered(rules, bodies, i, a2),
    ensures
        a1 == a2,
{
    assert forall|s1: Seq<A::Vector>, s2: Seq<A::Vector>|
        running(rules, bodies, i, s1) && s1.len() == bodies.len() + 1 && running(rules, bodies, i, s2)
            && s2.len() == bodies.len() + 1 implies s1.last() == s2.last() by {
        running_is_one(rules, bodies, i, s1, s2, bodies.len() as int);
    }
}

/// The integrator has one result.
proof fn advanced_is_one<A: Arithmetic>(
    rules: &Rules<A>,
    body: &Body<A>,
    pull: A::Vector,
    elapsed: A::Scalar,
    n1: &Body<A>,
    n2: &Body<A>,
)
    requires
        deterministic::<A>(),
        advanced(rules, body, pull, elapsed, n1),
        advanced(rules, body, pull, elapsed, n2),
    ensures
        *n1 == *n2,
{
    assert forall|v: A::Vector, limit: A::Scalar, r1: A::Vector, r2: A::Vector|
        limited::<A>(v, limit, r1) && limited::<A>(v, limit, r2) implies r1 == r2 by {
        limited_is_one::<A>(v, limit, r1, r2);
    }
    assert(n1.acceleration == n2.acceleration);
    assert(n1.velocity == n2.velocity);
}

/// A body is settled in one way.
proof fn settled_is_one<A: Arithmetic>(
    rules: &Rules<A>,
    before: Seq<Body<A>>,
    i: int,
    elapsed: A::Scalar,
    n1: &Body<A>,
    n2: &Body<A>,
)
    requires
        deterministic::<A>(),
        settled(rules, before, i, elapsed, n1),
        settled(rules, before, i, elapsed, n2),
    ensures
        *n1 == *n2,
{
    assert forall|q1: A::Vector, q2: A::Vector|
        gathered(rules, before, i, q1) && gathered(rules, before, i, q2) implies q1 == q2 by {
        gathered_is_one(rules, before, i, q1, q2);
    }
    assert forall|q: A::Vector, m1: Body<A>, m2: Body<A>|
        advanced(rules, &before[i], q, elapsed, &m1) && advanced(
            rules,
            &before[i],
            q,
            elapsed,
            &m2,
        ) implies m1 == m2 by {
        advanced_is_one(rules, &before[i], q, elapsed, &m1, &m2);
    }
}

/// Two runs agree after `k` ticks.
proof fn run_is_one<A: Arithmetic>(
    rules: &Rules<A>,
    start: Seq<Body<A>>,
    elapsed: Seq<A::Scalar>,
    states1: Seq<Seq<Body<A>>>,
    states2: Seq<Seq<Body<A>>>,
    k: int,
)
    requires
        deterministic::<A>(),
        ran(rules, start, elapsed, states1),
        ran(rules, start, elapsed, states2),
        0 <= k <= elapsed.len(),
    ensures
        states1[k] == states2[k],
    decreases k,
{
    if k > 0 {
        run_is_one(rules, start, elapsed, states1, states2, k - 1);
        assert(ticked(rules, states1[k - 1], elapsed[k - 1], states1[k - 1 + 1]));
        assert(ticked(rules, states2[k - 1], elapsed[k - 1], states2[k - 1 + 1]));
        tick_is_deterministic(rules, states1[k - 1], elapsed[k - 1], states1[k], states2[k]);
    }
}

} // verus!

//! The number system a simulation runs in.
//!
//! The contracts of the library speak of the operations through
//! `call_ensures`: `call_ensures(A::product, (a, b), r)` reads "`r` is a
//! value that `A::product(a, b)` may return". A contract built of such
//! clauses says which operations were applied, to which values, and where
//! each result went.

use vstd::prelude::*;

verus! {

/// The scalars and vectors of a simulation, with the operations that the
/// physics is composed of.
///
/// No operation carries a contract: the library proves how it combines them,
/// for whatever they return. An implementation is expected to return from
/// every call.
pub trait Arithmetic {
    /// A real number.
    type Scalar: Copy;

    /// A vector of three scalars.
    type Vector: Copy;

    /// A vector of three numbers in the renderer's precision.
    type Placement;

    /// The scalar that stands for the whole number `n`.
    fn number(n: u32) -> Self::Scalar;

    /// `-a`.
    fn negated(a: Self::Scalar) -> Self::Scalar;

    /// `a * b`.
    fn product(a: Self::Scalar, b: Self::Scalar) -> Self::Scalar;

    /// `a / b`.
    fn quotient(a: Self::Scalar, b: Self::Scalar) -> Self::Scalar;

    /// `a` raised to the power `b`.
    fn power(a: Self::Scalar, b: Self::Scalar) -> Self::Scalar;

    /// Whether `a > b`.
    fn exceeds(a: Self::Scalar, b: Self::Scalar) -> bool;

    /// The four-quadrant arctangent of `y` over `x`, in radians.
    fn arctangent(y: Self::Scalar, x: Self::Scalar) -> Self::Scalar;

    /// The cosine of an angle in radians.
    fn cosine(angle: Self::Scalar) -> Self::Scalar;

    /// The sine of an angle in radians.
    fn sine(angle: Self::Scalar) -> Self::Scalar;

    /// The vector with the components `x`, `y` and `z`.
    fn vector(x: Self::Scalar, y: Self::Scalar, z: Self::Scalar) -> Self::Vector;

    /// `a + b`, component by component.
    fn sum(a: Self::Vector, b: Self::Vector) -> Self::Vector;

    /// `a - b`, component by component.
    fn difference(a: Self::Vector, b: Self::Vector) -> Self::Vector;

    /// `v` with every component multiplied by `k`.
    fn scaled(v: Self::Vector, k: Self::Scalar) -> Self::Vector;

    /// The Euclidean length of `v`.
    fn length(v: Self::Vector) -> Self::Scalar;

    /// `v` rescaled to length one.
    fn unit(v: Self::Vector) -> Self::Vector;

    /// `v` with every component narrowed to the renderer's precision.
    fn narrowed(v: Self::Vector) -> Self::Placement;
}

/// Every operation of the arithmetic is a function: the same arguments never
/// give two results.
///
/// The library does not take this for granted of an arithmetic. It is the
/// premise of the laws that speak of repeated runs.
pub open spec fn deterministic<A: Arithmetic>() -> bool {
    &&& forall|n: u32, r1: A::Scalar, r2: A::Scalar|
        #![trigger call_ensures(A::number, (n,), r1), call_ensures(A::number, (n,), r2)]
        call_ensures(A::number, (n,), r1) && call_ensures(A::number, (n,), r2) ==> r1 == r2
    &&& forall|a: A::Scalar, r1: A::Scalar, r2: A::Scalar|
        #![trigger call_ensures(A::negated, (a,), r1), call_ensures(A::negated, (a,), r2)]
        call_ensures(A::negated, (a,), r1) && call_ensures(A::negated, (a,), r2) ==> r1 == r2
    &&& forall|a: A::Scalar, b: A::Scalar, r1: A::Scalar, r2: A::Scalar|
        #![trigger call_ensures(A::product, (a, b), r1), call_ensures(A::product, (a, b), r2)]
        call_ensures(A::product, (a, b), r1) && call_ensures(A::product, (a, b), r2) ==> r1 == r2
    &&& forall|a: A::Scalar, b: A::Scalar, r1: A::Scalar, r2: A::Scalar|
        #![trigger call_ensures(A::quotient, (a, b), r1), call_ensures(A::quotient, (a, b), r2)]
        call_ensures(A::quotient, (a, b), r1) && call_ensures(A::quotient, (a, b), r2) ==> r1 == r2
    &&& forall|a: A::Scalar, b: A::Scalar, r1: A::Scalar, r2: A::Scalar|
        #![trigger call_ensures(A::power, (a, b), r1), call_ensures(A::power, (a, b), r2)]
        call_ensures(A::power, (a, b), r1) && call_ensures(A::power, (a, b), r2) ==> r1 == r2
    &&& forall|a: A::Scalar, b: A::Scalar, r1: bool, r2: bool|
        #![trigger call_ensures(A::exceeds, (a, b), r1), call_ensures(A::exceeds, (a, b), r2)]
        call_ensures(A::exceeds, (a, b), r1) && call_ensures(A::exceeds, (a, b), r2) ==> r1 == r2
    &&& forall|a: A::Scalar, b: A::Scalar, r1: A::Scalar, r2: A::Scalar|
        #![trigger call_ensures(A::arctangent, (a, b), r1), call_ensures(A::arctangent, (a, b), r2)]
        call_ensures(A::arctangent, (a, b), r1) && call_ensures(A::arctangent, (a, b), r2) ==> r1 == r2
    &&& forall|a: A::Scalar, r1: A::Scalar, r2: A::Scalar|
        #![trigger call_ensures(A::cosine, (a,), r1), call_ensures(A::cosine, (a,), r2)]
        call_ensures(A::cosine, (a,), r1) && call_ensures(A::cosine, (a,), r2) ==> r1 == r2
    &&& forall|a: A::Scalar, r1: A::Scalar, r2: A::Scalar|
        #![trigger call_ensures(A::sine, (a,), r1), call_ensures(A::sine, (a,), r2)]
        call_ensures(A::sine, (a,), r1) && call_ensures(A::sine, (a,), r2) ==> r1 == r2
    &&& forall|x: A::Scalar, y: A::Scalar, z: A::Scalar, r1: A::Vector, r2: A::Vector|
        #![trigger call_ensures(A::vector, (x, y, z), r1), call_ensures(A::vector, (x, y, z), r2)]
        call_ensures(A::vector, (x, y, z), r1) && call_ensures(A::vector, (x, y, z), r2) ==> r1 == r2
    &&& forall|a: A::Vector, b: A::Vector, r1: A::Vector, r2: A::Vector|
        #![trigger call_ensures(A::sum, (a, b), r1), call_ensures(A::sum, (a, b), r2)]
        call_ensures(A::sum, (a, b), r1) && call_ensures(A::sum, (a, b), r2) ==> r1 == r2
    &&& forall|a: A::Vector, b: A::Vector, r1: A::Vector, r2: A::Vector|
        #![trigger call_ensures(A::difference, (a, b), r1), call_ensures(A::difference, (a, b), r2)]
        call_ensures(A::difference, (a, b), r1) && call_ensures(A::difference, (a, b), r2) ==> r1
            == r2
    &&& forall|v: A::Vector, k: A::Scalar, r1: A::Vector, r2: A::Vector|
        #![trigger call_ensures(A::scaled, (v, k), r1), call_ensures(A::scaled, (v, k), r2)]
        call_ensures(A::scaled, (v, k), r1) && call_ensures(A::scaled, (v, k), r2) ==> r1 == r2
    &&& forall|v: A::Vector, r1: A::Scalar, r2: A::Scalar|
        #![trigger call_ensures(A::length, (v,), r1), call_ensures(A::length, (v,), r2)]
        call_ensures(A::length, (v,), r1) && call_ensures(A::length, (v,), r2) ==> r1 == r2
    &&& forall|v: A::Vector, r1: A::Vector, r2: A::Vector|
        #![trigger call_ensures(A::unit, (v,), r1), call_ensures(A::unit, (v,), r2)]
        call_ensures(A::unit, (v,), r1) && call_ensures(A::unit, (v,), r2) ==> r1 == r2
    &&& forall|v: A::Vector, r1: A::Placement, r2: A::Placement|
        #![trigger call_ensures(A::narrowed, (v,), r1), call_ensures(A::narrowed, (v,), r2)]
        call_ensures(A::narrowed, (v,), r1) && call_ensures(A::narrowed, (v,), r2) ==> r1 == r2
}

/// `p` is an origin vector: its three components are results of `number(0)`.
pub open spec fn is_origin<A: Arithmetic>(p: A::Vector) -> bool {
    exists|zero: A::Scalar|
        #![trigger call_ensures(A::vector, (zero, zero, zero), p)]
        call_ensures(A::number, (0u32,), zero) && call_ensures(A::vector, (zero, zero, zero), p)
}

/// The origin vector, made anew.
pub fn origin<A: Arithmetic>() -> (p: A::Vector)
    ensures
        is_origin::<A>(p),
{
    let zero = A::number(0);
    A::vector(zero, zero, zero)
}

} // verus!

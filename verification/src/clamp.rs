//! The magnitude clamp.

use vstd::prelude::*;
use crate::arithmetic::Arithmetic;

verus! {

/// `r` is `v` held to the magnitude `limit`: the length of `v` was measured
/// and compared with `limit`; where it exceeded the limit, `r` is the unit
/// vector of `v` scaled by `limit`, and otherwise `r` is `v` itself.
pub open spec fn limited<A: Arithmetic>(v: A::Vector, limit: A::Scalar, r: A::Vector) -> bool {
    exists|len: A::Scalar, over: bool|
        #![trigger call_ensures(A::exceeds, (len, limit), over)]
        {
            &&& call_ensures(A::length, (v,), len)
            &&& call_ensures(A::exceeds, (len, limit), over)
            &&& if over {
                rescaled::<A>(v, limit, r)
            } else {
                r == v
            }
        }
}

/// `r` is the unit vector of `v`, scaled by `limit`.
pub open spec fn rescaled<A: Arithmetic>(v: A::Vector, limit: A::Scalar, r: A::Vector) -> bool {
    exists|u: A::Vector|
        #![trigger call_ensures(A::unit, (v,), u)]
        call_ensures(A::unit, (v,), u) && call_ensures(A::scaled, (u, limit), r)
}

/// Holds `v` to the magnitude `limit`, keeping its direction.
///
/// A vector whose length does not exceed the limit is returned as it is, and
/// no unit vector is asked for: the zero vector is never normalized.
pub fn limit_length<A: Arithmetic>(v: A::Vector, limit: A::Scalar) -> (r: A::Vector)
    ensures
        limited::<A>(v, limit, r),
{
    let len = A::length(v);
    if A::exceeds(len, limit) {
        let u = A::unit(v);
        A::scaled(u, limit)
    } else {
        v
    }
}

} // verus!

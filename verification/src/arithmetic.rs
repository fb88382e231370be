//! The mathematical model that gadget contracts are stated over.

use vstd::prelude::*;

verus! {

/// A curve usable with the ECC gadgets.
///
/// The point groups used for circuit synthesis have prime order, and a
/// group of prime order is cyclic: fixing a generator `G`, every point of
/// the curve is `[k] G` for exactly one index `k` below the group order.
/// The specification-level model of a point is that index, and the group
/// operations become arithmetic on indices modulo [`CurveAffine::order`].
/// Off-circuit arithmetic on actual coordinates is out of scope here; only
/// this abstract view of it is.
pub trait CurveAffine: Sized {
    /// The base field of the curve, over which in-circuit arithmetic is
    /// performed.
    type Base;

    /// The order of the curve's group of points.
    spec fn order() -> nat;

    /// Every curve group contains at least the identity point.
    proof fn order_positive()
        ensures
            Self::order() >= 1,
    ;
}

/// The index of the identity point, `[0] G`.
pub open spec fn identity_value() -> nat {
    0
}

/// The index of the sum of the points with indices `a` and `b`:
/// `[a] G + [b] G == [a + b] G`.
pub open spec fn add_value<C: CurveAffine>(a: nat, b: nat) -> nat {
    (a + b) % C::order()
}

/// The index of twice the point with index `a`. Doubling a point is adding
/// it to itself.
pub open spec fn double_value<C: CurveAffine>(a: nat) -> nat {
    add_value::<C>(a, a)
}

/// The index of `[k] P`, where `P` is the point with index `a`.
pub open spec fn mul_value<C: CurveAffine>(k: nat, a: nat) -> nat {
    (k * a) % C::order()
}

} // verus!

//! Gadgets and chips for elliptic curve operations.

use crate::arithmetic::{add_value, double_value, identity_value, mul_value, CurveAffine};
use crate::circuit::{Chip, Layouter};
use crate::plonk::Error;
use vstd::arithmetic::div_mod::lemma_small_mod;
use vstd::prelude::*;

verus! {

/// The set of circuit instructions required to use the ECC gadgets.
///
/// A chip is free in how it encodes its variables and lays out its
/// constraints; the contract pins down only what each returned variable
/// stands for, through the chip's own value maps. Every operation requests
/// circuit resources through a [`Layouter`] and surfaces an allocation
/// failure as an [`Error`] instead of a wrong result.
pub trait EccInstructions<C: CurveAffine>: Chip<Field = C::Base> {
    /// Variable representing an element of the elliptic curve's scalar
    /// field.
    type Scalar: Clone;

    /// Variable representing an elliptic curve point.
    type Point: Clone;

    /// Variable representing a fixed elliptic curve point (constant in the
    /// circuit).
    type FixedPoint: Clone;

    /// The scalar-field element that a scalar variable stands for.
    spec fn scalar_value(s: &Self::Scalar) -> nat;

    /// The index of the curve point that a point variable stands for.
    spec fn point_value(p: &Self::Point) -> nat;

    /// The index of the curve point that a fixed-point variable stands for.
    spec fn fixed_point_value(p: &Self::FixedPoint) -> nat;

    /// A point variable always stands for one of the curve's points: its
    /// index lies below the group order.
    proof fn point_value_reduced(p: &Self::Point)
        ensures
            Self::point_value(p) < C::order(),
    ;

    /// Performs point addition, returning `a + b`.
    ///
    /// The law must be complete: it is correct for every pair of inputs,
    /// the identity element and `a == b` included.
    fn add<L: Layouter<Self>>(layouter: &mut L, a: &Self::Point, b: &Self::Point) -> (r: Result<
        Self::Point,
        Error,
    >)
        ensures
            r matches Ok(p) ==> Self::point_value(&p) == add_value::<C>(
                Self::point_value(a),
                Self::point_value(b),
            ),
    ;

    /// Performs point doubling, returning `[2] a`.
    ///
    /// Semantically this is `a + a`; a chip may still synthesize it with a
    /// dedicated, cheaper circuit.
    fn double<L: Layouter<Self>>(layouter: &mut L, a: &Self::Point) -> (r: Result<
        Self::Point,
        Error,
    >)
        ensures
            r matches Ok(p) ==> Self::point_value(&p) == double_value::<C>(Self::point_value(a)),
    ;

    /// Performs variable-base scalar multiplication, returning
    /// `[scalar] base`. The multiplication strategy is the chip's choice.
    fn mul<L: Layouter<Self>>(layouter: &mut L, scalar: &Self::Scalar, base: &Self::Point) -> (r:
        Result<Self::Point, Error>)
        ensures
            r matches Ok(p) ==> Self::point_value(&p) == mul_value::<C>(
                Self::scalar_value(scalar),
                Self::point_value(base),
            ),
    ;

    /// Performs fixed-base scalar multiplication, returning
    /// `[scalar] base`, where the base is a constant of the circuit and the
    /// chip may exploit precomputation.
    fn mul_fixed<L: Layouter<Self>>(
        layouter: &mut L,
        scalar: &Self::Scalar,
        base: &Self::FixedPoint,
    ) -> (r: Result<Self::Point, Error>)
        ensures
            r matches Ok(p) ==> Self::point_value(&p) == mul_value::<C>(
                Self::scalar_value(scalar),
                Self::fixed_point_value(base),
            ),
    ;
}

/// An element of the given elliptic curve's scalar field.
pub struct Scalar<C: CurveAffine, EccChip: EccInstructions<C>> {
    inner: EccChip::Scalar,
}

impl<C: CurveAffine, EccChip: EccInstructions<C>> Scalar<C, EccChip> {
    /// Wraps a chip-native scalar variable.
    pub fn new(inner: EccChip::Scalar) -> (s: Self)
        ensures
            s.value() == EccChip::scalar_value(&inner),
    {
        Scalar { inner }
    }

    /// The scalar-field element this variable stands for.
    pub closed spec fn value(&self) -> nat {
        EccChip::scalar_value(&self.inner)
    }
}

/// An elliptic curve point over the given curve.
pub struct Point<C: CurveAffine, EccChip: EccInstructions<C>> {
    inner: EccChip::Point,
}

impl<C: CurveAffine, EccChip: EccInstructions<C>> Point<C, EccChip> {
    /// Wraps a chip-native point variable.
    pub fn new(inner: EccChip::Point) -> (p: Self)
        ensures
            p.value() == EccChip::point_value(&inner),
    {
        Point { inner }
    }

    /// Hands the chip-native point variable back, resolving the wrapper.
    pub fn into_inner(self) -> (r: EccChip::Point)
        ensures
            EccChip::point_value(&r) == self.value(),
    {
        self.inner
    }

    /// The index of the curve point this variable stands for.
    pub closed spec fn value(&self) -> nat {
        EccChip::point_value(&self.inner)
    }

    /// The wrapped variable stands for one of the curve's points.
    pub proof fn lemma_value_reduced(&self)
        ensures
            self.value() < C::order(),
    {
        EccChip::point_value_reduced(&self.inner);
    }

    /// Returns `self + other`.
    pub fn add<L: Layouter<EccChip>>(&self, mut layouter: L, other: &Self) -> (r: Result<
        Self,
        Error,
    >)
        ensures
            r matches Ok(p) ==> p.value() == add_value::<C>(self.value(), other.value()),
    {
        match EccChip::add(&mut layouter, &self.inner, &other.inner) {
            Ok(inner) => Ok(Point { inner }),
            Err(e) => Err(e),
        }
    }

    /// Returns `[2] self`.
    pub fn double<L: Layouter<EccChip>>(&self, mut layouter: L) -> (r: Result<Self, Error>)
        ensures
            r matches Ok(p) ==> p.value() == double_value::<C>(self.value()),
    {
        match EccChip::double(&mut layouter, &self.inner) {
            Ok(inner) => Ok(Point { inner }),
            Err(e) => Err(e),
        }
    }

    /// Returns `[by] self`.
    pub fn mul<L: Layouter<EccChip>>(&self, mut layouter: L, by: &Scalar<C, EccChip>) -> (r: Result<
        Self,
        Error,
    >)
        ensures
            r matches Ok(p) ==> p.value() == mul_value::<C>(by.value(), self.value()),
    {
        match EccChip::mul(&mut layouter, &by.inner, &self.inner) {
            Ok(inner) => Ok(Point { inner }),
            Err(e) => Err(e),
        }
    }
}

/// A constant elliptic curve point over the given curve, for which scalar
/// multiplication is more efficient.
pub struct FixedPoint<C: CurveAffine, EccChip: EccInstructions<C>> {
    inner: EccChip::FixedPoint,
}

impl<C: CurveAffine, EccChip: EccInstructions<C>> FixedPoint<C, EccChip> {
    /// Wraps a chip-native fixed-point variable.
    pub fn new(inner: EccChip::FixedPoint) -> (f: Self)
        ensures
            f.value() == EccChip::fixed_point_value(&inner),
    {
        FixedPoint { inner }
    }

    /// The index of the curve point this constant stands for.
    pub closed spec fn value(&self) -> nat {
        EccChip::fixed_point_value(&self.inner)
    }

    /// Returns `[by] self`.
    pub fn mul<L: Layouter<EccChip>>(&self, mut layouter: L, by: &Scalar<C, EccChip>) -> (r: Result<
        Point<C, EccChip>,
        Error,
    >)
        ensures
            r matches Ok(p) ==> p.value() == mul_value::<C>(by.value(), self.value()),
    {
        match EccChip::mul_fixed(&mut layouter, &by.inner, &self.inner) {
            Ok(inner) => Ok(Point { inner }),
            Err(e) => Err(e),
        }
    }
}

/// Point addition is commutative: whenever two `add` calls on `p` and `q`
/// succeed with the operands in either order, the resulting variables stand
/// for the same curve point.
pub proof fn lemma_add_commutative<C: CurveAffine, E: EccInstructions<C>>(
    p: &Point<C, E>,
    q: &Point<C, E>,
    r_pq: &Point<C, E>,
    r_qp: &Point<C, E>,
)
    requires
        r_pq.value() == add_value::<C>(p.value(), q.value()),
        r_qp.value() == add_value::<C>(q.value(), p.value()),
    ensures
        r_pq.value() == r_qp.value(),
{
}

/// Doubling agrees with self-addition: whenever `double` on `p` and `add`
/// on `p` and `p` both succeed, the resulting variables stand for the same
/// curve point.
pub proof fn lemma_double_is_add_self<C: CurveAffine, E: EccInstructions<C>>(
    p: &Point<C, E>,
    r_double: &Point<C, E>,
    r_add: &Point<C, E>,
)
    requires
        r_double.value() == double_value::<C>(p.value()),
        r_add.value() == add_value::<C>(p.value(), p.value()),
    ensures
        r_double.value() == r_add.value(),
{
}

/// Fixed-base and variable-base multiplication are consistent: for equal
/// scalars and a fixed base standing for the same point as a variable base,
/// successful `FixedPoint::mul` and `Point::mul` results stand for the same
/// curve point.
pub proof fn lemma_fixed_mul_consistent<C: CurveAffine, E: EccInstructions<C>>(
    s_fixed: &Scalar<C, E>,
    s_var: &Scalar<C, E>,
    f: &FixedPoint<C, E>,
    p: &Point<C, E>,
    r_fixed: &Point<C, E>,
    r_var: &Point<C, E>,
)
    requires
        s_fixed.value() == s_var.value(),
        f.value() == p.value(),
        r_fixed.value() == mul_value::<C>(s_fixed.value(), f.value()),
        r_var.value() == mul_value::<C>(s_var.value(), p.value()),
    ensures
        r_fixed.value() == r_var.value(),
{
}

/// Multiplying by the zero scalar resolves to the identity point.
pub proof fn lemma_mul_by_zero<C: CurveAffine, E: EccInstructions<C>>(
    s: &Scalar<C, E>,
    p: &Point<C, E>,
    r: &Point<C, E>,
)
    requires
        s.value() == 0,
        r.value() == mul_value::<C>(s.value(), p.value()),
    ensures
        r.value() == identity_value(),
{
    C::order_positive();
    lemma_small_mod(0, C::order());
}

/// Multiplying by the one scalar resolves to the base point itself.
pub proof fn lemma_mul_by_one<C: CurveAffine, E: EccInstructions<C>>(
    s: &Scalar<C, E>,
    p: &Point<C, E>,
    r: &Point<C, E>,
)
    requires
        s.value() == 1,
        r.value() == mul_value::<C>(s.value(), p.value()),
    ensures
        r.value() == p.value(),
{
    p.lemma_value_reduced();
    lemma_small_mod(p.value(), C::order());
}

/// Adding a variable standing for the identity point leaves the point that
/// the other operand stands for unchanged. With both operands standing for
/// the identity, the sum stands for the identity again.
pub proof fn lemma_add_identity<C: CurveAffine, E: EccInstructions<C>>(
    p: &Point<C, E>,
    id: &Point<C, E>,
    r: &Point<C, E>,
)
    requires
        id.value() == identity_value(),
        r.value() == add_value::<C>(p.value(), id.value()),
    ensures
        r.value() == p.value(),
{
    p.lemma_value_reduced();
    lemma_small_mod(p.value(), C::order());
}

} // verus!

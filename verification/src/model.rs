//! A reference chip over a small cyclic group, for exercising the gadgets
//! off-circuit.

use crate::arithmetic::CurveAffine;
use crate::circuit::{Chip, Layouter};
use crate::ecc::EccInstructions;
use crate::plonk::Error;
use vstd::prelude::*;

verus! {

/// The order of the model curve's group of points.
pub const MODEL_ORDER: u64 = 13;

/// A curve whose group of points has the small prime order
/// [`MODEL_ORDER`].
pub struct ModelCurve;

impl CurveAffine for ModelCurve {
    type Base = u64;

    open spec fn order() -> nat {
        MODEL_ORDER as nat
    }

    proof fn order_positive() {
    }
}

/// A region allocator with a fixed capacity. Each instruction takes one
/// region; once the capacity is exhausted, allocation fails with a
/// synthesis error.
pub struct ModelLayouter {
    /// Regions still available.
    pub regions_left: u64,
}

impl ModelLayouter {
    /// A layouter with `regions` regions available.
    pub fn new(regions: u64) -> (l: ModelLayouter)
        ensures
            l.regions_left == regions,
    {
        ModelLayouter { regions_left: regions }
    }
}

impl<E> Layouter<E> for ModelLayouter {
    fn assign_region(&mut self) -> (r: Result<(), Error>) {
        if self.regions_left == 0 {
            Err(Error::Synthesis)
        } else {
            self.regions_left = self.regions_left - 1;
            Ok(())
        }
    }
}

/// A chip implementing the ECC instructions over [`ModelCurve`].
///
/// Its variables carry the model directly: a point variable is the index of
/// the point it stands for, a scalar variable a scalar-field element, both
/// read modulo the group order. Every instruction takes one region from the
/// layouter and fails exactly when that allocation fails.
pub struct ModelChip;

impl Chip for ModelChip {
    type Field = u64;
}

impl EccInstructions<ModelCurve> for ModelChip {
    type Scalar = u64;

    type Point = u64;

    type FixedPoint = u64;

    closed spec fn scalar_value(s: &u64) -> nat {
        (*s as nat) % (MODEL_ORDER as nat)
    }

    closed spec fn point_value(p: &u64) -> nat {
        (*p as nat) % (MODEL_ORDER as nat)
    }

    closed spec fn fixed_point_value(p: &u64) -> nat {
        (*p as nat) % (MODEL_ORDER as nat)
    }

    proof fn point_value_reduced(p: &u64) {
    }

    fn add<L: Layouter<Self>>(layouter: &mut L, a: &u64, b: &u64) -> (r: Result<u64, Error>) {
        match layouter.assign_region() {
            Ok(()) => Ok((*a % MODEL_ORDER + *b % MODEL_ORDER) % MODEL_ORDER),
            Err(e) => Err(e),
        }
    }

    fn double<L: Layouter<Self>>(layouter: &mut L, a: &u64) -> (r: Result<u64, Error>) {
        match layouter.assign_region() {
            Ok(()) => Ok((*a % MODEL_ORDER + *a % MODEL_ORDER) % MODEL_ORDER),
            Err(e) => Err(e),
        }
    }

    fn mul<L: Layouter<Self>>(layouter: &mut L, scalar: &u64, base: &u64) -> (r: Result<
        u64,
        Error,
    >) {
        match layouter.assign_region() {
            Ok(()) => {
                let s: u64 = *scalar % MODEL_ORDER;
                let b: u64 = *base % MODEL_ORDER;
                assert(s * b < MODEL_ORDER * MODEL_ORDER) by (nonlinear_arith)
                    requires
                        s < MODEL_ORDER,
                        b < MODEL_ORDER,
                ;
                Ok(s * b % MODEL_ORDER)
            },
            Err(e) => Err(e),
        }
    }

    fn mul_fixed<L: Layouter<Self>>(layouter: &mut L, scalar: &u64, base: &u64) -> (r: Result<
        u64,
        Error,
    >) {
        match layouter.assign_region() {
            Ok(()) => {
                let s: u64 = *scalar % MODEL_ORDER;
                let b: u64 = *base % MODEL_ORDER;
                assert(s * b < MODEL_ORDER * MODEL_ORDER) by (nonlinear_arith)
                    requires
                        s < MODEL_ORDER,
                        b < MODEL_ORDER,
                ;
                Ok(s * b % MODEL_ORDER)
            },
            Err(e) => Err(e),
        }
    }
}

} // verus!

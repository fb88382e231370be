//! Traits for the services a chip consumes during synthesis.

use crate::plonk::Error;
use vstd::prelude::*;

verus! {

/// A chip: the configured implementation of some instruction set over a
/// base field.
pub trait Chip: Sized {
    /// The field that the chip's circuit operates over.
    type Field;
}

/// A region-allocation service: hands out circuit regions to instructions.
///
/// Whether an allocation succeeds is the layouter's own affair (capacity,
/// configuration); nothing is promised of the outcome, and an instruction
/// must surface a failure unchanged rather than retry.
pub trait Layouter<E>: Sized {
    /// Requests exclusive use of a fresh region of the circuit for one
    /// instruction.
    fn assign_region(&mut self) -> (r: Result<(), Error>);
}

} // verus!

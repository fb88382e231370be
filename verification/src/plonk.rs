//! Errors that circuit synthesis can raise.

use vstd::prelude::*;

verus! {

/// An error raised during circuit synthesis.
///
/// There is a single kind: a requested circuit allocation could not be
/// satisfied (insufficient capacity, misconfiguration). Gadgets forward it
/// unchanged and never recover from it locally.
#[derive(Clone, Copy, Debug, PartialEq, Eq, Structural)]
pub enum Error {
    /// The layouter could not place the requested regions or cells.
    Synthesis,
}

} // verus!

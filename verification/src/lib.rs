//! Gadget interface for elliptic-curve arithmetic inside arithmetic circuits.
//!
//! Circuit-building code manipulates curve points and scalars through typed
//! wrappers ([`ecc::Scalar`], [`ecc::Point`], [`ecc::FixedPoint`]) that are
//! generic over a curve and over a chip implementing the instruction
//! contract [`ecc::EccInstructions`]. The wrappers add compile-time type
//! safety only: every operation forwards to the chip, and values produced by
//! different chips cannot be mixed.

pub mod arithmetic;
pub mod circuit;
pub mod ecc;
pub mod model;
pub mod plonk;

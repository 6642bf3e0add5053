//! Projective geometric algebra of 3D space (PGA), computed exactly.
//!
//! Every element is held with integer coefficients, so the products,
//! duality maps and canonical forms below are exact and their contracts
//! speak of plain integers.
use vstd::prelude::*;

pub mod scalar;
pub mod kvector;
pub mod multivector;
pub mod anykvector;
pub mod versor;
pub mod laws;
pub mod convert;
mod marker;

pub use scalar::Scalar;
pub use kvector::{Vector, Bivector, Trivector, Pseudoscalar};
pub use multivector::{Motor, OddVersor, Multivector};
pub use anykvector::AnyKVector;
pub use versor::Versor;
pub use marker::NonScalar;

verus! {

} // verus!

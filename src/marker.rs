//! Marker traits over the element types.
use vstd::prelude::*;
use crate::kvector::{Vector, Bivector, Trivector, Pseudoscalar};
use crate::anykvector::AnyKVector;
use crate::multivector::{Motor, OddVersor};
use crate::versor::Versor;

verus! {

/// Closes `NonScalar` to the types of this crate: the module that holds it is private.
pub trait Sealed {}

/// The element types other than the bare scalar.
pub trait NonScalar: Sealed {}

impl Sealed for Vector {}
impl Sealed for Bivector {}
impl Sealed for Trivector {}
impl Sealed for Pseudoscalar {}
impl Sealed for AnyKVector {}
impl Sealed for OddVersor {}
impl Sealed for Motor {}
impl Sealed for Versor {}

impl NonScalar for Vector {}
impl NonScalar for Bivector {}
impl NonScalar for Trivector {}
impl NonScalar for Pseudoscalar {}
impl NonScalar for AnyKVector {}
impl NonScalar for OddVersor {}
impl NonScalar for Motor {}
impl NonScalar for Versor {}

} // verus!

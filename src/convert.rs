//! Conversions between the element types.
use vstd::prelude::*;
use crate::scalar::Scalar;
use crate::kvector::{Vector, Bivector, Trivector, Pseudoscalar};
use crate::anykvector::AnyKVector;
use crate::multivector::{Motor, OddVersor};
use crate::versor::Versor;

verus! {

/// The coefficients in layout order.
impl From<[Scalar; 4]> for Vector {
    fn from(v: [Scalar; 4]) -> (r: Vector) {
        Vector {
            e1: v[0],
            e2: v[1],
            e3: v[2],
            e0: v[3],
        }
    }
}

impl vstd::std_specs::convert::FromSpecImpl<[Scalar; 4]> for Vector {
    open spec fn obeys_from_spec() -> bool {
        true
    }

    open spec fn from_spec(v: [Scalar; 4]) -> Vector {
        Vector {
            e1: v@[0],
            e2: v@[1],
            e3: v@[2],
            e0: v@[3],
        }
    }
}

/// The coefficients in layout order.
impl From<[Scalar; 6]> for Bivector {
    fn from(v: [Scalar; 6]) -> (r: Bivector) {
        Bivector {
            e12: v[0],
            e31: v[1],
            e23: v[2],
            e01: v[3],
            e02: v[4],
            e03: v[5],
        }
    }
}

impl vstd::std_specs::convert::FromSpecImpl<[Scalar; 6]> for Bivector {
    open spec fn obeys_from_spec() -> bool {
        true
    }

    open spec fn from_spec(v: [Scalar; 6]) -> Bivector {
        Bivector {
            e12: v@[0],
            e31: v@[1],
            e23: v@[2],
            e01: v@[3],
            e02: v@[4],
            e03: v@[5],
        }
    }
}

/// The coefficients in layout order.
impl From<[Scalar; 4]> for Trivector {
    fn from(v: [Scalar; 4]) -> (r: Trivector) {
        Trivector {
            e123: v[0],
            e032: v[1],
            e013: v[2],
            e021: v[3],
        }
    }
}

impl vstd::std_specs::convert::FromSpecImpl<[Scalar; 4]> for Trivector {
    open spec fn obeys_from_spec() -> bool {
        true
    }

    open spec fn from_spec(v: [Scalar; 4]) -> Trivector {
        Trivector {
            e123: v@[0],
            e032: v@[1],
            e013: v@[2],
            e021: v@[3],
        }
    }
}

/// The coefficients in layout order.
impl From<[Scalar; 8]> for Motor {
    fn from(v: [Scalar; 8]) -> (r: Motor) {
        Motor {
            s: v[0],
            e12: v[1],
            e31: v[2],
            e23: v[3],
            e01: v[4],
            e02: v[5],
            e03: v[6],
            e0123: v[7],
        }
    }
}

impl vstd::std_specs::convert::FromSpecImpl<[Scalar; 8]> for Motor {
    open spec fn obeys_from_spec() -> bool {
        true
    }

    open spec fn from_spec(v: [Scalar; 8]) -> Motor {
        Motor {
            s: v@[0],
            e12: v@[1],
            e31: v@[2],
            e23: v@[3],
            e01: v@[4],
            e02: v@[5],
            e03: v@[6],
            e0123: v@[7],
        }
    }
}

/// The coefficients in layout order.
impl From<[Scalar; 8]> for OddVersor {
    fn from(v: [Scalar; 8]) -> (r: OddVersor) {
        OddVersor {
            e1: v[0],
            e2: v[1],
            e3: v[2],
            e0: v[3],
            e123: v[4],
            e032: v[5],
            e013: v[6],
            e021: v[7],
        }
    }
}

impl vstd::std_specs::convert::FromSpecImpl<[Scalar; 8]> for OddVersor {
    open spec fn obeys_from_spec() -> bool {
        true
    }

    open spec fn from_spec(v: [Scalar; 8]) -> OddVersor {
        OddVersor {
            e1: v@[0],
            e2: v@[1],
            e3: v@[2],
            e0: v@[3],
            e123: v@[4],
            e032: v@[5],
            e013: v@[6],
            e021: v@[7],
        }
    }
}

impl From<Scalar> for AnyKVector {
    fn from(v: Scalar) -> (r: AnyKVector) {
        AnyKVector::Zero(v)
    }
}

impl vstd::std_specs::convert::FromSpecImpl<Scalar> for AnyKVector {
    open spec fn obeys_from_spec() -> bool {
        true
    }

    open spec fn from_spec(v: Scalar) -> AnyKVector {
        AnyKVector::Zero(v)
    }
}

impl From<Vector> for AnyKVector {
    fn from(v: Vector) -> (r: AnyKVector) {
        AnyKVector::One(v)
    }
}

impl vstd::std_specs::convert::FromSpecImpl<Vector> for AnyKVector {
    open spec fn obeys_from_spec() -> bool {
        true
    }

    open spec fn from_spec(v: Vector) -> AnyKVector {
        AnyKVector::One(v)
    }
}

impl From<Bivector> for AnyKVector {
    fn from(v: Bivector) -> (r: AnyKVector) {
        AnyKVector::Two(v)
    }
}

impl vstd::std_specs::convert::FromSpecImpl<Bivector> for AnyKVector {
    open spec fn obeys_from_spec() -> bool {
        true
    }

    open spec fn from_spec(v: Bivector) -> AnyKVector {
        AnyKVector::Two(v)
    }
}

impl From<Trivector> for AnyKVector {
    fn from(v: Trivector) -> (r: AnyKVector) {
        AnyKVector::Three(v)
    }
}

impl vstd::std_specs::convert::FromSpecImpl<Trivector> for AnyKVector {
    open spec fn obeys_from_spec() -> bool {
        true
    }

    open spec fn from_spec(v: Trivector) -> AnyKVector {
        AnyKVector::Three(v)
    }
}

impl From<Pseudoscalar> for AnyKVector {
    fn from(v: Pseudoscalar) -> (r: AnyKVector) {
        AnyKVector::Four(v)
    }
}

impl vstd::std_specs::convert::FromSpecImpl<Pseudoscalar> for AnyKVector {
    open spec fn obeys_from_spec() -> bool {
        true
    }

    open spec fn from_spec(v: Pseudoscalar) -> AnyKVector {
        AnyKVector::Four(v)
    }
}

impl From<AnyKVector> for Versor {
    fn from(k: AnyKVector) -> (r: Versor) {
        Versor::KVec(k)
    }
}

impl vstd::std_specs::convert::FromSpecImpl<AnyKVector> for Versor {
    open spec fn obeys_from_spec() -> bool {
        true
    }

    open spec fn from_spec(k: AnyKVector) -> Versor {
        Versor::KVec(k)
    }
}

/// A motor converts to its canonical form.
impl From<Motor> for Versor {
    fn from(m: Motor) -> (r: Versor) {
        Versor::from_motor(m)
    }
}

impl vstd::std_specs::convert::FromSpecImpl<Motor> for Versor {
    open spec fn obeys_from_spec() -> bool {
        true
    }

    open spec fn from_spec(m: Motor) -> Versor {
        Versor::spec_from_motor(m)
    }
}

/// An odd element converts to its canonical form.
impl From<OddVersor> for Versor {
    fn from(o: OddVersor) -> (r: Versor) {
        Versor::from_odd(o)
    }
}

impl vstd::std_specs::convert::FromSpecImpl<OddVersor> for Versor {
    open spec fn obeys_from_spec() -> bool {
        true
    }

    open spec fn from_spec(o: OddVersor) -> Versor {
        Versor::spec_from_odd(o)
    }
}

} // verus!

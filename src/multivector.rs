//! The even and odd sub-algebras and the full geometric product.
//!
//! A general element is the sum of an even part (`Motor`: grades 0, 2, 4)
//! and an odd part (`OddVersor`: grades 1, 3); the geometric product of two
//! such elements is one fixed table of bilinear terms.
use vstd::prelude::*;
use crate::scalar::{Scalar, LIMIT, NEG_LIMIT, SMALL, bounded, times};
use crate::kvector::{Vector, Bivector, Trivector, Pseudoscalar};

verus! {

/// An even element: scalar, bivector and pseudoscalar parts. Normalised, it is a rigid motion.
#[derive(Clone, Copy, Debug, PartialEq, Eq, Structural)]
pub struct Motor {
    pub s: Scalar,
    pub e12: Scalar,
    pub e31: Scalar,
    pub e23: Scalar,
    pub e01: Scalar,
    pub e02: Scalar,
    pub e03: Scalar,
    pub e0123: Scalar,
}

impl Motor {
    pub open spec fn spec_zero() -> Self {
        Motor { s: 0, e12: 0, e31: 0, e23: 0, e01: 0, e02: 0, e03: 0, e0123: 0 }
    }

    pub fn new(
        s: Scalar,
        e12: Scalar,
        e31: Scalar,
        e23: Scalar,
        e01: Scalar,
        e02: Scalar,
        e03: Scalar,
        e0123: Scalar,
    ) -> (r: Self)
        ensures
            r == (Motor { s, e12, e31, e23, e01, e02, e03, e0123 }),
    {
        Motor { s, e12, e31, e23, e01, e02, e03, e0123 }
    }

    /// The zero element of this grade.
    pub fn zero() -> (r: Self)
        ensures
            r == (Motor { s: 0, e12: 0, e31: 0, e23: 0, e01: 0, e02: 0, e03: 0, e0123: 0 }),
    {
        Motor { s: 0, e12: 0, e31: 0, e23: 0, e01: 0, e02: 0, e03: 0, e0123: 0 }
    }

    /// Every coefficient lies in `[-bound, bound]`.
    pub open spec fn within(self, bound: int) -> bool {
        &&& bounded(self.s as int, bound)
        &&& bounded(self.e12 as int, bound)
        &&& bounded(self.e31 as int, bound)
        &&& bounded(self.e23 as int, bound)
        &&& bounded(self.e01 as int, bound)
        &&& bounded(self.e02 as int, bound)
        &&& bounded(self.e03 as int, bound)
        &&& bounded(self.e0123 as int, bound)
    }

    /// Every coefficient is zero.
    pub open spec fn spec_is_zero(self) -> bool {
        &&& self.s == 0
        &&& self.e12 == 0
        &&& self.e31 == 0
        &&& self.e23 == 0
        &&& self.e01 == 0
        &&& self.e02 == 0
        &&& self.e03 == 0
        &&& self.e0123 == 0
    }

    pub open spec fn spec_add(self, rhs: Self) -> Self {
        Motor {
            s: (self.s + rhs.s) as Scalar,
            e12: (self.e12 + rhs.e12) as Scalar,
            e31: (self.e31 + rhs.e31) as Scalar,
            e23: (self.e23 + rhs.e23) as Scalar,
            e01: (self.e01 + rhs.e01) as Scalar,
            e02: (self.e02 + rhs.e02) as Scalar,
            e03: (self.e03 + rhs.e03) as Scalar,
            e0123: (self.e0123 + rhs.e0123) as Scalar,
        }
    }

    /// Componentwise sum.
    pub fn add(&self, rhs: &Self) -> (r: Self)
        requires
            self.within(LIMIT as int),
            rhs.within(LIMIT as int),
        ensures
            r == self.spec_add(*rhs),
    {
        Motor {
            s: self.s + rhs.s,
            e12: self.e12 + rhs.e12,
            e31: self.e31 + rhs.e31,
            e23: self.e23 + rhs.e23,
            e01: self.e01 + rhs.e01,
            e02: self.e02 + rhs.e02,
            e03: self.e03 + rhs.e03,
            e0123: self.e0123 + rhs.e0123,
        }
    }

    pub open spec fn spec_sub(self, rhs: Self) -> Self {
        Motor {
            s: (self.s - rhs.s) as Scalar,
            e12: (self.e12 - rhs.e12) as Scalar,
            e31: (self.e31 - rhs.e31) as Scalar,
            e23: (self.e23 - rhs.e23) as Scalar,
            e01: (self.e01 - rhs.e01) as Scalar,
            e02: (self.e02 - rhs.e02) as Scalar,
            e03: (self.e03 - rhs.e03) as Scalar,
            e0123: (self.e0123 - rhs.e0123) as Scalar,
        }
    }

    /// Componentwise difference.
    pub fn sub(&self, rhs: &Self) -> (r: Self)
        requires
            self.within(LIMIT as int),
            rhs.within(LIMIT as int),
        ensures
            r == self.spec_sub(*rhs),
    {
        Motor {
            s: self.s - rhs.s,
            e12: self.e12 - rhs.e12,
            e31: self.e31 - rhs.e31,
            e23: self.e23 - rhs.e23,
            e01: self.e01 - rhs.e01,
            e02: self.e02 - rhs.e02,
            e03: self.e03 - rhs.e03,
            e0123: self.e0123 - rhs.e0123,
        }
    }

    pub open spec fn spec_neg(self) -> Self {
        Motor {
            s: (-self.s) as Scalar,
            e12: (-self.e12) as Scalar,
            e31: (-self.e31) as Scalar,
            e23: (-self.e23) as Scalar,
            e01: (-self.e01) as Scalar,
            e02: (-self.e02) as Scalar,
            e03: (-self.e03) as Scalar,
            e0123: (-self.e0123) as Scalar,
        }
    }

    /// Componentwise negation.
    pub fn neg(&self) -> (r: Self)
        requires
            self.within(NEG_LIMIT as int),
        ensures
            r == self.spec_neg(),
    {
        Motor {
            s: -self.s,
            e12: -self.e12,
            e31: -self.e31,
            e23: -self.e23,
            e01: -self.e01,
            e02: -self.e02,
            e03: -self.e03,
            e0123: -self.e0123,
        }
    }

    pub open spec fn spec_scale(self, s: Scalar) -> Self {
        Motor {
            s: (self.s * s) as Scalar,
            e12: (self.e12 * s) as Scalar,
            e31: (self.e31 * s) as Scalar,
            e23: (self.e23 * s) as Scalar,
            e01: (self.e01 * s) as Scalar,
            e02: (self.e02 * s) as Scalar,
            e03: (self.e03 * s) as Scalar,
            e0123: (self.e0123 * s) as Scalar,
        }
    }

    /// Every coefficient multiplied by `s`.
    pub fn scale(&self, s: Scalar) -> (r: Self)
        requires
            self.within(LIMIT as int),
            bounded(s as int, LIMIT as int),
        ensures
            r == self.spec_scale(s),
    {
        Motor {
            s: times(self.s, s),
            e12: times(self.e12, s),
            e31: times(self.e31, s),
            e23: times(self.e23, s),
            e01: times(self.e01, s),
            e02: times(self.e02, s),
            e03: times(self.e03, s),
            e0123: times(self.e0123, s),
        }
    }

    pub open spec fn spec_reverse(self) -> Self {
        Motor {
            s: self.s,
            e12: (-self.e12) as Scalar,
            e31: (-self.e31) as Scalar,
            e23: (-self.e23) as Scalar,
            e01: (-self.e01) as Scalar,
            e02: (-self.e02) as Scalar,
            e03: (-self.e03) as Scalar,
            e0123: self.e0123,
        }
    }

    /// The reverse: the bivector part changes sign.
    pub fn reverse(&self) -> (r: Self)
        requires
            self.within(NEG_LIMIT as int),
        ensures
            r == self.spec_reverse(),
    {
        Motor {
            s: self.s,
            e12: -self.e12,
            e31: -self.e31,
            e23: -self.e23,
            e01: -self.e01,
            e02: -self.e02,
            e03: -self.e03,
            e0123: self.e0123,
        }
    }

    pub open spec fn spec_grade_involution(self) -> Self {
        Motor {
            s: self.s,
            e12: self.e12,
            e31: self.e31,
            e23: self.e23,
            e01: self.e01,
            e02: self.e02,
            e03: self.e03,
            e0123: self.e0123,
        }
    }

    /// The grade involution, which leaves an even element unchanged.
    pub fn grade_involution(&self) -> (r: Self)
        ensures
            r == self.spec_grade_involution(),
    {
        Motor {
            s: self.s,
            e12: self.e12,
            e31: self.e31,
            e23: self.e23,
            e01: self.e01,
            e02: self.e02,
            e03: self.e03,
            e0123: self.e0123,
        }
    }

}

/// An odd element: a vector part and a trivector part.
#[derive(Clone, Copy, Debug, PartialEq, Eq, Structural)]
pub struct OddVersor {
    pub e1: Scalar,
    pub e2: Scalar,
    pub e3: Scalar,
    pub e0: Scalar,
    pub e123: Scalar,
    pub e032: Scalar,
    pub e013: Scalar,
    pub e021: Scalar,
}

impl OddVersor {
    pub open spec fn spec_zero() -> Self {
        OddVersor { e1: 0, e2: 0, e3: 0, e0: 0, e123: 0, e032: 0, e013: 0, e021: 0 }
    }

    pub fn new(
        e1: Scalar,
        e2: Scalar,
        e3: Scalar,
        e0: Scalar,
        e123: Scalar,
        e032: Scalar,
        e013: Scalar,
        e021: Scalar,
    ) -> (r: Self)
        ensures
            r == (OddVersor {
            e1,
            e2,
            e3,
            e0,
            e123,
            e032,
            e013,
            e021,
        }),
    {
        OddVersor {
            e1,
            e2,
            e3,
            e0,
            e123,
            e032,
            e013,
            e021,
        }
    }

    /// The zero element of this grade.
    pub fn zero() -> (r: Self)
        ensures
            r == (OddVersor { e1: 0, e2: 0, e3: 0, e0: 0, e123: 0, e032: 0, e013: 0, e021: 0 }),
    {
        OddVersor { e1: 0, e2: 0, e3: 0, e0: 0, e123: 0, e032: 0, e013: 0, e021: 0 }
    }

    /// Every coefficient lies in `[-bound, bound]`.
    pub open spec fn within(self, bound: int) -> bool {
        &&& bounded(self.e1 as int, bound)
        &&& bounded(self.e2 as int, bound)
        &&& bounded(self.e3 as int, bound)
        &&& bounded(self.e0 as int, bound)
        &&& bounded(self.e123 as int, bound)
        &&& bounded(self.e032 as int, bound)
        &&& bounded(self.e013 as int, bound)
        &&& bounded(self.e021 as int, bound)
    }

    /// Every coefficient is zero.
    pub open spec fn spec_is_zero(self) -> bool {
        &&& self.e1 == 0
        &&& self.e2 == 0
        &&& self.e3 == 0
        &&& self.e0 == 0
        &&& self.e123 == 0
        &&& self.e032 == 0
        &&& self.e013 == 0
        &&& self.e021 == 0
    }

    pub open spec fn spec_add(self, rhs: Self) -> Self {
        OddVersor {
            e1: (self.e1 + rhs.e1) as Scalar,
            e2: (self.e2 + rhs.e2) as Scalar,
            e3: (self.e3 + rhs.e3) as Scalar,
            e0: (self.e0 + rhs.e0) as Scalar,
            e123: (self.e123 + rhs.e123) as Scalar,
            e032: (self.e032 + rhs.e032) as Scalar,
            e013: (self.e013 + rhs.e013) as Scalar,
            e021: (self.e021 + rhs.e021) as Scalar,
        }
    }

    /// Componentwise sum.
    pub fn add(&self, rhs: &Self) -> (r: Self)
        requires
            self.within(LIMIT as int),
            rhs.within(LIMIT as int),
        ensures
            r == self.spec_add(*rhs),
    {
        OddVersor {
            e1: self.e1 + rhs.e1,
            e2: self.e2 + rhs.e2,
            e3: self.e3 + rhs.e3,
            e0: self.e0 + rhs.e0,
            e123: self.e123 + rhs.e123,
            e032: self.e032 + rhs.e032,
            e013: self.e013 + rhs.e013,
            e021: self.e021 + rhs.e021,
        }
    }

    pub open spec fn spec_sub(self, rhs: Self) -> Self {
        OddVersor {
            e1: (self.e1 - rhs.e1) as Scalar,
            e2: (self.e2 - rhs.e2) as Scalar,
            e3: (self.e3 - rhs.e3) as Scalar,
            e0: (self.e0 - rhs.e0) as Scalar,
            e123: (self.e123 - rhs.e123) as Scalar,
            e032: (self.e032 - rhs.e032) as Scalar,
            e013: (self.e013 - rhs.e013) as Scalar,
            e021: (self.e021 - rhs.e021) as Scalar,
        }
    }

    /// Componentwise difference.
    pub fn sub(&self, rhs: &Self) -> (r: Self)
        requires
            self.within(LIMIT as int),
            rhs.within(LIMIT as int),
        ensures
            r == self.spec_sub(*rhs),
    {
        OddVersor {
            e1: self.e1 - rhs.e1,
            e2: self.e2 - rhs.e2,
            e3: self.e3 - rhs.e3,
            e0: self.e0 - rhs.e0,
            e123: self.e123 - rhs.e123,
            e032: self.e032 - rhs.e032,
            e013: self.e013 - rhs.e013,
            e021: self.e021 - rhs.e021,
        }
    }

    pub open spec fn spec_neg(self) -> Self {
        OddVersor {
            e1: (-self.e1) as Scalar,
            e2: (-self.e2) as Scalar,
            e3: (-self.e3) as Scalar,
            e0: (-self.e0) as Scalar,
            e123: (-self.e123) as Scalar,
            e032: (-self.e032) as Scalar,
            e013: (-self.e013) as Scalar,
            e021: (-self.e021) as Scalar,
        }
    }

    /// Componentwise negation.
    pub fn neg(&self) -> (r: Self)
        requires
            self.within(NEG_LIMIT as int),
        ensures
            r == self.spec_neg(),
    {
        OddVersor {
            e1: -self.e1,
            e2: -self.e2,
            e3: -self.e3,
            e0: -self.e0,
            e123: -self.e123,
            e032: -self.e032,
            e013: -self.e013,
            e021: -self.e021,
        }
    }

    pub open spec fn spec_scale(self, s: Scalar) -> Self {
        OddVersor {
            e1: (self.e1 * s) as Scalar,
            e2: (self.e2 * s) as Scalar,
            e3: (self.e3 * s) as Scalar,
            e0: (self.e0 * s) as Scalar,
            e123: (self.e123 * s) as Scalar,
            e032: (self.e032 * s) as Scalar,
            e013: (self.e013 * s) as Scalar,
            e021: (self.e021 * s) as Scalar,
        }
    }

    /// Every coefficient multiplied by `s`.
    pub fn scale(&self, s: Scalar) -> (r: Self)
        requires
            self.within(LIMIT as int),
            bounded(s as int, LIMIT as int),
        ensures
            r == self.spec_scale(s),
    {
        OddVersor {
            e1: times(self.e1, s),
            e2: times(self.e2, s),
            e3: times(self.e3, s),
            e0: times(self.e0, s),
            e123: times(self.e123, s),
            e032: times(self.e032, s),
            e013: times(self.e013, s),
            e021: times(self.e021, s),
        }
    }

    pub open spec fn spec_reverse(self) -> Self {
        OddVersor {
            e1: self.e1,
            e2: self.e2,
            e3: self.e3,
            e0: self.e0,
            e123: (-self.e123) as Scalar,
            e032: (-self.e032) as Scalar,
            e013: (-self.e013) as Scalar,
            e021: (-self.e021) as Scalar,
        }
    }

    /// The reverse: the trivector part changes sign.
    pub fn reverse(&self) -> (r: Self)
        requires
            self.within(NEG_LIMIT as int),
        ensures
            r == self.spec_reverse(),
    {
        OddVersor {
            e1: self.e1,
            e2: self.e2,
            e3: self.e3,
            e0: self.e0,
            e123: -self.e123,
            e032: -self.e032,
            e013: -self.e013,
            e021: -self.e021,
        }
    }

    pub open spec fn spec_grade_involution(self) -> Self {
        OddVersor {
            e1: (-self.e1) as Scalar,
            e2: (-self.e2) as Scalar,
            e3: (-self.e3) as Scalar,
            e0: (-self.e0) as Scalar,
            e123: (-self.e123) as Scalar,
            e032: (-self.e032) as Scalar,
            e013: (-self.e013) as Scalar,
            e021: (-self.e021) as Scalar,
        }
    }

    /// The grade involution, which negates an odd element.
    pub fn grade_involution(&self) -> (r: Self)
        requires
            self.within(NEG_LIMIT as int),
        ensures
            r == self.spec_grade_involution(),
    {
        OddVersor {
            e1: -self.e1,
            e2: -self.e2,
            e3: -self.e3,
            e0: -self.e0,
            e123: -self.e123,
            e032: -self.e032,
            e013: -self.e013,
            e021: -self.e021,
        }
    }

}


impl Motor {
    pub open spec fn spec_from_parts(s: Scalar, b: Bivector, p: Scalar) -> Self {
        Motor {
            s,
            e12: b.e12,
            e31: b.e31,
            e23: b.e23,
            e01: b.e01,
            e02: b.e02,
            e03: b.e03,
            e0123: p,
        }
    }

    /// The motor `s + b + p`.
    pub fn from_parts(s: Scalar, b: Bivector, p: Pseudoscalar) -> (r: Self)
        ensures
            r == Self::spec_from_parts(s, b, p.0),
    {
        Motor {
            s,
            e12: b.e12,
            e31: b.e31,
            e23: b.e23,
            e01: b.e01,
            e02: b.e02,
            e03: b.e03,
            e0123: p.0,
        }
    }

    pub open spec fn spec_identity() -> Self {
        Motor { s: 1, e12: 0, e31: 0, e23: 0, e01: 0, e02: 0, e03: 0, e0123: 0 }
    }

    /// The identity motor, the scalar one.
    pub fn identity() -> (r: Self)
        ensures
            r == Self::spec_identity(),
    {
        Motor { s: 1, e12: 0, e31: 0, e23: 0, e01: 0, e02: 0, e03: 0, e0123: 0 }
    }

    pub open spec fn bivector(self) -> Bivector {
        Bivector {
            e12: self.e12,
            e31: self.e31,
            e23: self.e23,
            e01: self.e01,
            e02: self.e02,
            e03: self.e03,
        }
    }

    /// The grade-2 part.
    pub fn get_bivector(&self) -> (r: Bivector)
        ensures
            r == self.bivector(),
    {
        Bivector {
            e12: self.e12,
            e31: self.e31,
            e23: self.e23,
            e01: self.e01,
            e02: self.e02,
            e03: self.e03,
        }
    }

    /// The dual, grade by grade: the scalar and the pseudoscalar trade places
    /// and the bivector takes its dual.
    pub open spec fn spec_dual(self) -> Motor {
        Motor {
            s: self.e0123,
            e12: self.e03,
            e31: self.e02,
            e23: self.e01,
            e01: self.e23,
            e02: self.e31,
            e03: self.e12,
            e0123: self.s,
        }
    }

    /// On even elements the undual is the dual.
    pub fn dual(&self) -> (r: Motor)
        ensures
            r == self.spec_dual(),
    {
        Motor {
            s: self.e0123,
            e12: self.e03,
            e31: self.e02,
            e23: self.e01,
            e01: self.e23,
            e02: self.e31,
            e03: self.e12,
            e0123: self.s,
        }
    }

    /// The scalar, bivector and euclidean parts vanish: a motor at infinity.
    pub open spec fn spec_is_ideal(self) -> bool {
        self.s == 0 && self.e12 == 0 && self.e31 == 0 && self.e23 == 0
    }

    pub fn is_ideal(&self) -> (r: bool)
        ensures
            r == self.spec_is_ideal(),
    {
        self.s == 0 && self.e12 == 0 && self.e31 == 0 && self.e23 == 0
    }

    /// The motor as a general element, with a zero odd part.
    pub open spec fn full(self) -> Multivector {
        Multivector { even: self, odd: OddVersor::spec_zero() }
    }

    pub fn to_multivector(&self) -> (r: Multivector)
        ensures
            r == self.full(),
    {
        Multivector { even: *self, odd: OddVersor::zero() }
    }
}

impl OddVersor {
    pub open spec fn spec_from_parts(v: Vector, t: Trivector) -> Self {
        OddVersor {
            e1: v.e1,
            e2: v.e2,
            e3: v.e3,
            e0: v.e0,
            e123: t.e123,
            e032: t.e032,
            e013: t.e013,
            e021: t.e021,
        }
    }

    /// The odd element `v + t`.
    pub fn from_parts(v: Vector, t: Trivector) -> (r: Self)
        ensures
            r == Self::spec_from_parts(v, t),
    {
        OddVersor {
            e1: v.e1,
            e2: v.e2,
            e3: v.e3,
            e0: v.e0,
            e123: t.e123,
            e032: t.e032,
            e013: t.e013,
            e021: t.e021,
        }
    }

    pub open spec fn vector(self) -> Vector {
        Vector { e1: self.e1, e2: self.e2, e3: self.e3, e0: self.e0 }
    }

    pub open spec fn trivector(self) -> Trivector {
        Trivector { e123: self.e123, e032: self.e032, e013: self.e013, e021: self.e021 }
    }

    /// The grade-1 part.
    pub fn get_vector(&self) -> (r: Vector)
        ensures
            r == self.vector(),
    {
        Vector { e1: self.e1, e2: self.e2, e3: self.e3, e0: self.e0 }
    }

    /// The grade-3 part.
    pub fn get_trivector(&self) -> (r: Trivector)
        ensures
            r == self.trivector(),
    {
        Trivector { e123: self.e123, e032: self.e032, e013: self.e013, e021: self.e021 }
    }

    /// The dual, grade by grade: the vector part becomes the trivector part and back.
    pub open spec fn spec_dual(self) -> OddVersor {
        OddVersor::spec_from_parts(self.trivector().spec_dual(), self.vector().spec_dual())
    }

    /// The undual, grade by grade.
    pub open spec fn spec_undual(self) -> OddVersor {
        OddVersor::spec_from_parts(self.trivector().spec_undual(), self.vector().spec_undual())
    }

    pub fn dual(&self) -> (r: OddVersor)
        requires
            self.within(NEG_LIMIT as int),
        ensures
            r == self.spec_dual(),
    {
        OddVersor::from_parts(self.get_trivector().dual(), self.get_vector().dual())
    }

    pub fn undual(&self) -> (r: OddVersor)
        requires
            self.within(NEG_LIMIT as int),
        ensures
            r == self.spec_undual(),
    {
        OddVersor::from_parts(self.get_trivector().undual(), self.get_vector().undual())
    }

    /// The Euclidean parts `e1 e2 e3` and `e123` vanish: an element at infinity.
    pub open spec fn spec_is_ideal(self) -> bool {
        self.e1 == 0 && self.e2 == 0 && self.e3 == 0 && self.e123 == 0
    }

    pub fn is_ideal(&self) -> (r: bool)
        ensures
            r == self.spec_is_ideal(),
    {
        self.e1 == 0 && self.e2 == 0 && self.e3 == 0 && self.e123 == 0
    }

    /// The odd element as a general element, with a zero even part.
    pub open spec fn full(self) -> Multivector {
        Multivector { even: Motor::spec_zero(), odd: self }
    }

    pub fn to_multivector(&self) -> (r: Multivector)
        ensures
            r == self.full(),
    {
        Multivector { even: Motor::zero(), odd: *self }
    }
}

/// The value of a general element: one integer coefficient per basis blade.
pub struct Element {
    pub s: int,
    pub e12: int,
    pub e31: int,
    pub e23: int,
    pub e01: int,
    pub e02: int,
    pub e03: int,
    pub e0123: int,
    pub e1: int,
    pub e2: int,
    pub e3: int,
    pub e0: int,
    pub e123: int,
    pub e032: int,
    pub e013: int,
    pub e021: int,
}

impl Element {
    /// The coefficient of the blade whose factors are the set bits of `basis`
    /// (`e0 e1 e2 e3` from the high bit down); zero for any other mask.
    pub open spec fn coefficient(self, basis: int) -> int {
        if basis == 0b0000 {
            self.s
} else if basis == 0b0110 {
            self.e12
        } else if basis == 0b0101 {
            self.e31
        } else if basis == 0b0011 {
            self.e23
        } else if basis == 0b1100 {
            self.e01
        } else if basis == 0b1010 {
            self.e02
        } else if basis == 0b1001 {
            self.e03
        } else if basis == 0b1111 {
            self.e0123
        } else if basis == 0b0100 {
            self.e1
        } else if basis == 0b0010 {
            self.e2
        } else if basis == 0b0001 {
            self.e3
        } else if basis == 0b1000 {
            self.e0
        } else if basis == 0b0111 {
            self.e123
        } else if basis == 0b1011 {
            self.e032
        } else if basis == 0b1101 {
            self.e013
        } else if basis == 0b1110 {
            self.e021
        } else {
            0
        }
    }

    /// The grades 0, 2 and 4, as a motor.
    pub open spec fn even_part(self) -> Motor {
        Motor {
            s: self.s as Scalar,
            e12: self.e12 as Scalar,
            e31: self.e31 as Scalar,
            e23: self.e23 as Scalar,
            e01: self.e01 as Scalar,
            e02: self.e02 as Scalar,
            e03: self.e03 as Scalar,
            e0123: self.e0123 as Scalar,
        }
    }

    /// The grades 1 and 3, as an odd element.
    pub open spec fn odd_part(self) -> OddVersor {
        OddVersor {
            e1: self.e1 as Scalar,
            e2: self.e2 as Scalar,
            e3: self.e3 as Scalar,
            e0: self.e0 as Scalar,
            e123: self.e123 as Scalar,
            e032: self.e032 as Scalar,
            e013: self.e013 as Scalar,
            e021: self.e021 as Scalar,
        }
    }

    /// The grades 0, 2 and 4 vanish.
    pub open spec fn even_is_zero(self) -> bool {
        let e = self;
        &&& e.s == 0
        &&& e.e12 == 0
        &&& e.e31 == 0
        &&& e.e23 == 0
        &&& e.e01 == 0
        &&& e.e02 == 0
        &&& e.e03 == 0
        &&& e.e0123 == 0
    }

    /// The grades 1 and 3 vanish.
    pub open spec fn odd_is_zero(self) -> bool {
        let e = self;
        &&& e.e1 == 0
        &&& e.e2 == 0
        &&& e.e3 == 0
        &&& e.e0 == 0
        &&& e.e123 == 0
        &&& e.e032 == 0
        &&& e.e013 == 0
        &&& e.e021 == 0
    }
}

/// The geometric product of two values, term by term over the basis blades.
#[verifier::opaque]
pub open spec fn product(a: Element, b: Element) -> Element {
    Element {
        s: a.s * b.s
            - a.e12 * b.e12
            - a.e31 * b.e31
            - a.e23 * b.e23
            + a.e1 * b.e1
            + a.e2 * b.e2
            + a.e3 * b.e3
            - a.e123 * b.e123,
        e12: a.s * b.e12
            + a.e12 * b.s
            + a.e31 * b.e23
            - a.e23 * b.e31
            + a.e1 * b.e2
            - a.e2 * b.e1
            + a.e3 * b.e123
            + a.e123 * b.e3,
        e31: a.s * b.e31
            - a.e12 * b.e23
            + a.e31 * b.s
            + a.e23 * b.e12
            - a.e1 * b.e3
            + a.e2 * b.e123
            + a.e3 * b.e1
            + a.e123 * b.e2,
        e23: a.s * b.e23
            + a.e12 * b.e31
            - a.e31 * b.e12
            + a.e23 * b.s
            + a.e1 * b.e123
            + a.e2 * b.e3
            - a.e3 * b.e2
            + a.e123 * b.e1,
        e01: a.s * b.e01
            + a.e12 * b.e02
            - a.e31 * b.e03
            - a.e23 * b.e0123
            + a.e01 * b.s
            - a.e02 * b.e12
            + a.e03 * b.e31
            - a.e0123 * b.e23
            - a.e1 * b.e0
            - a.e2 * b.e021
            + a.e3 * b.e013
            + a.e0 * b.e1
            - a.e123 * b.e032
            + a.e032 * b.e123
            + a.e013 * b.e3
            - a.e021 * b.e2,
        e02: a.s * b.e02
            - a.e12 * b.e01
            - a.e31 * b.e0123
            + a.e23 * b.e03
            + a.e01 * b.e12
            + a.e02 * b.s
            - a.e03 * b.e23
            - a.e0123 * b.e31
            + a.e1 * b.e021
            - a.e2 * b.e0
            - a.e3 * b.e032
            + a.e0 * b.e2
            - a.e123 * b.e013
            - a.e032 * b.e3
            + a.e013 * b.e123
            + a.e021 * b.e1,
        e03: a.s * b.e03
            - a.e12 * b.e0123
            + a.e31 * b.e01
            - a.e23 * b.e02
            - a.e01 * b.e31
            + a.e02 * b.e23
            + a.e03 * b.s
            - a.e0123 * b.e12
            - a.e1 * b.e013
            + a.e2 * b.e032
            - a.e3 * b.e0
            + a.e0 * b.e3
            - a.e123 * b.e021
            + a.e032 * b.e2
            - a.e013 * b.e1
            + a.e021 * b.e123,
        e0123: a.s * b.e0123
            + a.e12 * b.e03
            + a.e31 * b.e02
            + a.e23 * b.e01
            + a.e01 * b.e23
            + a.e02 * b.e31
            + a.e03 * b.e12
            + a.e0123 * b.s
            + a.e1 * b.e032
            + a.e2 * b.e013
            + a.e3 * b.e021
            + a.e0 * b.e123
            - a.e123 * b.e0
            - a.e032 * b.e1
            - a.e013 * b.e2
            - a.e021 * b.e3,
        e1: a.s * b.e1
            + a.e12 * b.e2
            - a.e31 * b.e3
            - a.e23 * b.e123
            + a.e1 * b.s
            - a.e2 * b.e12
            + a.e3 * b.e31
            - a.e123 * b.e23,
        e2: a.s * b.e2
            - a.e12 * b.e1
            - a.e31 * b.e123
            + a.e23 * b.e3
            + a.e1 * b.e12
            + a.e2 * b.s
            - a.e3 * b.e23
            - a.e123 * b.e31,
        e3: a.s * b.e3
            - a.e12 * b.e123
            + a.e31 * b.e1
            - a.e23 * b.e2
            - a.e1 * b.e31
            + a.e2 * b.e23
            + a.e3 * b.s
            - a.e123 * b.e12,
        e0: a.s * b.e0
            + a.e12 * b.e021
            + a.e31 * b.e013
            + a.e23 * b.e032
            + a.e01 * b.e1
            + a.e02 * b.e2
            + a.e03 * b.e3
            - a.e0123 * b.e123
            - a.e1 * b.e01
            - a.e2 * b.e02
            - a.e3 * b.e03
            + a.e0 * b.s
            + a.e123 * b.e0123
            + a.e032 * b.e23
            + a.e013 * b.e31
            + a.e021 * b.e12,
        e123: a.s * b.e123
            + a.e12 * b.e3
            + a.e31 * b.e2
            + a.e23 * b.e1
            + a.e1 * b.e23
            + a.e2 * b.e31
            + a.e3 * b.e12
            + a.e123 * b.s,
        e032: a.s * b.e032
            + a.e12 * b.e013
            - a.e31 * b.e021
            - a.e23 * b.e0
            - a.e01 * b.e123
            - a.e02 * b.e3
            + a.e03 * b.e2
            - a.e0123 * b.e1
            + a.e1 * b.e0123
            + a.e2 * b.e03
            - a.e3 * b.e02
            - a.e0 * b.e23
            + a.e123 * b.e01
            + a.e032 * b.s
            - a.e013 * b.e12
            + a.e021 * b.e31,
        e013: a.s * b.e013
            - a.e12 * b.e032
            - a.e31 * b.e0
            + a.e23 * b.e021
            + a.e01 * b.e3
            - a.e02 * b.e123
            - a.e03 * b.e1
            - a.e0123 * b.e2
            - a.e1 * b.e03
            + a.e2 * b.e0123
            + a.e3 * b.e01
            - a.e0 * b.e31
            + a.e123 * b.e02
            + a.e032 * b.e12
            + a.e013 * b.s
            - a.e021 * b.e23,
        e021: a.s * b.e021
            - a.e12 * b.e0
            + a.e31 * b.e032
            - a.e23 * b.e013
            - a.e01 * b.e2
            + a.e02 * b.e1
            - a.e03 * b.e123
            - a.e0123 * b.e3
            + a.e1 * b.e02
            - a.e2 * b.e01
            + a.e3 * b.e0123
            - a.e0 * b.e12
            + a.e123 * b.e03
            - a.e032 * b.e31
            + a.e013 * b.e23
            + a.e021 * b.s,
    }
}

/// The product of two values of one parity is even; of two of different parity, odd.
pub proof fn lemma_product_parity(a: Element, b: Element)
    ensures
        a.odd_is_zero() && b.odd_is_zero() ==> product(a, b).odd_is_zero(),
        a.even_is_zero() && b.even_is_zero() ==> product(a, b).odd_is_zero(),
        a.odd_is_zero() && b.even_is_zero() ==> product(a, b).even_is_zero(),
        a.even_is_zero() && b.odd_is_zero() ==> product(a, b).even_is_zero(),
{
    reveal(product);
}

/// The scalar one is a unit on either side.
pub proof fn lemma_product_one(e: Element)
    ensures
        product(Motor::spec_identity().full().value(), e) == e,
        product(e, Motor::spec_identity().full().value()) == e,
{
    reveal(product);
}

/// A general element of the algebra: an even part and an odd part.
#[derive(Clone, Copy, Debug, PartialEq, Eq, Structural)]
pub struct Multivector {
    pub even: Motor,
    pub odd: OddVersor,
}

impl Multivector {
    pub open spec fn within(self, bound: int) -> bool {
        self.even.within(bound) && self.odd.within(bound)
    }

    pub open spec fn spec_add(self, rhs: Multivector) -> Multivector {
        Multivector { even: self.even.spec_add(rhs.even), odd: self.odd.spec_add(rhs.odd) }
    }

    pub open spec fn value(self) -> Element {
        Element {
            s: self.even.s as int,
            e12: self.even.e12 as int,
            e31: self.even.e31 as int,
            e23: self.even.e23 as int,
            e01: self.even.e01 as int,
            e02: self.even.e02 as int,
            e03: self.even.e03 as int,
            e0123: self.even.e0123 as int,
            e1: self.odd.e1 as int,
            e2: self.odd.e2 as int,
            e3: self.odd.e3 as int,
            e0: self.odd.e0 as int,
            e123: self.odd.e123 as int,
            e032: self.odd.e032 as int,
            e013: self.odd.e013 as int,
            e021: self.odd.e021 as int,
        }
    }

    /// The coefficient of the blade named by the bit mask `basis`.
    pub fn e(&self, basis: u8) -> (r: Scalar)
        ensures
            r == self.value().coefficient(basis as int),
    {
        match basis {
            0b0000 => self.even.s,
            0b0110 => self.even.e12,
            0b0101 => self.even.e31,
            0b0011 => self.even.e23,
            0b1100 => self.even.e01,
            0b1010 => self.even.e02,
            0b1001 => self.even.e03,
            0b1111 => self.even.e0123,
            0b0100 => self.odd.e1,
            0b0010 => self.odd.e2,
            0b0001 => self.odd.e3,
            0b1000 => self.odd.e0,
            0b0111 => self.odd.e123,
            0b1011 => self.odd.e032,
            0b1101 => self.odd.e013,
            0b1110 => self.odd.e021,
            _ => 0,
        }
    }

    /// The geometric product `self * rhs`.
    pub fn geo(&self, rhs: &Multivector) -> (r: Multivector)
        requires
            self.within(LIMIT as int),
            rhs.within(LIMIT as int),
        ensures
            r.value() == product(self.value(), rhs.value()),
            r.within(16 * LIMIT * LIMIT),
            self.within(SMALL as int) && rhs.within(SMALL as int) ==> r.within(
                16 * SMALL * SMALL,
            ),
    {
        reveal(product);
        let a = self;
        let b = rhs;
        Multivector {
            even: Motor {
                s: times(a.even.s, b.even.s)
                    - times(a.even.e12, b.even.e12)
                    - times(a.even.e31, b.even.e31)
                    - times(a.even.e23, b.even.e23)
                    + times(a.odd.e1, b.odd.e1)
                    + times(a.odd.e2, b.odd.e2)
                    + times(a.odd.e3, b.odd.e3)
                    - times(a.odd.e123, b.odd.e123),
                e12: times(a.even.s, b.even.e12)
                    + times(a.even.e12, b.even.s)
                    + times(a.even.e31, b.even.e23)
                    - times(a.even.e23, b.even.e31)
                    + times(a.odd.e1, b.odd.e2)
                    - times(a.odd.e2, b.odd.e1)
                    + times(a.odd.e3, b.odd.e123)
                    + times(a.odd.e123, b.odd.e3),
                e31: times(a.even.s, b.even.e31)
                    - times(a.even.e12, b.even.e23)
                    + times(a.even.e31, b.even.s)
                    + times(a.even.e23, b.even.e12)
                    - times(a.odd.e1, b.odd.e3)
                    + times(a.odd.e2, b.odd.e123)
                    + times(a.odd.e3, b.odd.e1)
                    + times(a.odd.e123, b.odd.e2),
                e23: times(a.even.s, b.even.e23)
                    + times(a.even.e12, b.even.e31)
                    - times(a.even.e31, b.even.e12)
                    + times(a.even.e23, b.even.s)
                    + times(a.odd.e1, b.odd.e123)
                    + times(a.odd.e2, b.odd.e3)
                    - times(a.odd.e3, b.odd.e2)
                    + times(a.odd.e123, b.odd.e1),
                e01: times(a.even.s, b.even.e01)
                    + times(a.even.e12, b.even.e02)
                    - times(a.even.e31, b.even.e03)
                    - times(a.even.e23, b.even.e0123)
                    + times(a.even.e01, b.even.s)
                    - times(a.even.e02, b.even.e12)
                    + times(a.even.e03, b.even.e31)
                    - times(a.even.e0123, b.even.e23)
                    - times(a.odd.e1, b.odd.e0)
                    - times(a.odd.e2, b.odd.e021)
                    + times(a.odd.e3, b.odd.e013)
                    + times(a.odd.e0, b.odd.e1)
                    - times(a.odd.e123, b.odd.e032)
                    + times(a.odd.e032, b.odd.e123)
                    + times(a.odd.e013, b.odd.e3)
                    - times(a.odd.e021, b.odd.e2),
                e02: times(a.even.s, b.even.e02)
                    - times(a.even.e12, b.even.e01)
                    - times(a.even.e31, b.even.e0123)
                    + times(a.even.e23, b.even.e03)
                    + times(a.even.e01, b.even.e12)
                    + times(a.even.e02, b.even.s)
                    - times(a.even.e03, b.even.e23)
                    - times(a.even.e0123, b.even.e31)
                    + times(a.odd.e1, b.odd.e021)
                    - times(a.odd.e2, b.odd.e0)
                    - times(a.odd.e3, b.odd.e032)
                    + times(a.odd.e0, b.odd.e2)
                    - times(a.odd.e123, b.odd.e013)
                    - times(a.odd.e032, b.odd.e3)
                    + times(a.odd.e013, b.odd.e123)
                    + times(a.odd.e021, b.odd.e1),
                e03: times(a.even.s, b.even.e03)
                    - times(a.even.e12, b.even.e0123)
                    + times(a.even.e31, b.even.e01)
                    - times(a.even.e23, b.even.e02)
                    - times(a.even.e01, b.even.e31)
                    + times(a.even.e02, b.even.e23)
                    + times(a.even.e03, b.even.s)
                    - times(a.even.e0123, b.even.e12)
                    - times(a.odd.e1, b.odd.e013)
                    + times(a.odd.e2, b.odd.e032)
                    - times(a.odd.e3, b.odd.e0)
                    + times(a.odd.e0, b.odd.e3)
                    - times(a.odd.e123, b.odd.e021)
                    + times(a.odd.e032, b.odd.e2)
                    - times(a.odd.e013, b.odd.e1)
                    + times(a.odd.e021, b.odd.e123),
                e0123: times(a.even.s, b.even.e0123)
                    + times(a.even.e12, b.even.e03)
                    + times(a.even.e31, b.even.e02)
                    + times(a.even.e23, b.even.e01)
                    + times(a.even.e01, b.even.e23)
                    + times(a.even.e02, b.even.e31)
                    + times(a.even.e03, b.even.e12)
                    + times(a.even.e0123, b.even.s)
                    + times(a.odd.e1, b.odd.e032)
                    + times(a.odd.e2, b.odd.e013)
                    + times(a.odd.e3, b.odd.e021)
                    + times(a.odd.e0, b.odd.e123)
                    - times(a.odd.e123, b.odd.e0)
                    - times(a.odd.e032, b.odd.e1)
                    - times(a.odd.e013, b.odd.e2)
                    - times(a.odd.e021, b.odd.e3),
            },
            odd: OddVersor {
                e1: times(a.even.s, b.odd.e1)
                    + times(a.even.e12, b.odd.e2)
                    - times(a.even.e31, b.odd.e3)
                    - times(a.even.e23, b.odd.e123)
                    + times(a.odd.e1, b.even.s)
                    - times(a.odd.e2, b.even.e12)
                    + times(a.odd.e3, b.even.e31)
                    - times(a.odd.e123, b.even.e23),
                e2: times(a.even.s, b.odd.e2)
                    - times(a.even.e12, b.odd.e1)
                    - times(a.even.e31, b.odd.e123)
                    + times(a.even.e23, b.odd.e3)
                    + times(a.odd.e1, b.even.e12)
                    + times(a.odd.e2, b.even.s)
                    - times(a.odd.e3, b.even.e23)
                    - times(a.odd.e123, b.even.e31),
                e3: times(a.even.s, b.odd.e3)
                    - times(a.even.e12, b.odd.e123)
                    + times(a.even.e31, b.odd.e1)
                    - times(a.even.e23, b.odd.e2)
                    - times(a.odd.e1, b.even.e31)
                    + times(a.odd.e2, b.even.e23)
                    + times(a.odd.e3, b.even.s)
                    - times(a.odd.e123, b.even.e12),
                e0: times(a.even.s, b.odd.e0)
                    + times(a.even.e12, b.odd.e021)
                    + times(a.even.e31, b.odd.e013)
                    + times(a.even.e23, b.odd.e032)
                    + times(a.even.e01, b.odd.e1)
                    + times(a.even.e02, b.odd.e2)
                    + times(a.even.e03, b.odd.e3)
                    - times(a.even.e0123, b.odd.e123)
                    - times(a.odd.e1, b.even.e01)
                    - times(a.odd.e2, b.even.e02)
                    - times(a.odd.e3, b.even.e03)
                    + times(a.odd.e0, b.even.s)
                    + times(a.odd.e123, b.even.e0123)
                    + times(a.odd.e032, b.even.e23)
                    + times(a.odd.e013, b.even.e31)
                    + times(a.odd.e021, b.even.e12),
                e123: times(a.even.s, b.odd.e123)
                    + times(a.even.e12, b.odd.e3)
                    + times(a.even.e31, b.odd.e2)
                    + times(a.even.e23, b.odd.e1)
                    + times(a.odd.e1, b.even.e23)
                    + times(a.odd.e2, b.even.e31)
                    + times(a.odd.e3, b.even.e12)
                    + times(a.odd.e123, b.even.s),
                e032: times(a.even.s, b.odd.e032)
                    + times(a.even.e12, b.odd.e013)
                    - times(a.even.e31, b.odd.e021)
                    - times(a.even.e23, b.odd.e0)
                    - times(a.even.e01, b.odd.e123)
                    - times(a.even.e02, b.odd.e3)
                    + times(a.even.e03, b.odd.e2)
                    - times(a.even.e0123, b.odd.e1)
                    + times(a.odd.e1, b.even.e0123)
                    + times(a.odd.e2, b.even.e03)
                    - times(a.odd.e3, b.even.e02)
                    - times(a.odd.e0, b.even.e23)
                    + times(a.odd.e123, b.even.e01)
                    + times(a.odd.e032, b.even.s)
                    - times(a.odd.e013, b.even.e12)
                    + times(a.odd.e021, b.even.e31),
                e013: times(a.even.s, b.odd.e013)
                    - times(a.even.e12, b.odd.e032)
                    - times(a.even.e31, b.odd.e0)
                    + times(a.even.e23, b.odd.e021)
                    + times(a.even.e01, b.odd.e3)
                    - times(a.even.e02, b.odd.e123)
                    - times(a.even.e03, b.odd.e1)
                    - times(a.even.e0123, b.odd.e2)
                    - times(a.odd.e1, b.even.e03)
                    + times(a.odd.e2, b.even.e0123)
                    + times(a.odd.e3, b.even.e01)
                    - times(a.odd.e0, b.even.e31)
                    + times(a.odd.e123, b.even.e02)
                    + times(a.odd.e032, b.even.e12)
                    + times(a.odd.e013, b.even.s)
                    - times(a.odd.e021, b.even.e23),
                e021: times(a.even.s, b.odd.e021)
                    - times(a.even.e12, b.odd.e0)
                    + times(a.even.e31, b.odd.e032)
                    - times(a.even.e23, b.odd.e013)
                    - times(a.even.e01, b.odd.e2)
                    + times(a.even.e02, b.odd.e1)
                    - times(a.even.e03, b.odd.e123)
                    - times(a.even.e0123, b.odd.e3)
                    + times(a.odd.e1, b.even.e02)
                    - times(a.odd.e2, b.even.e01)
                    + times(a.odd.e3, b.even.e0123)
                    - times(a.odd.e0, b.even.e12)
                    + times(a.odd.e123, b.even.e03)
                    - times(a.odd.e032, b.even.e31)
                    + times(a.odd.e013, b.even.e23)
                    + times(a.odd.e021, b.even.s),
            },
        }
    }
}

} // verus!

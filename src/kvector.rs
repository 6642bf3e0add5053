//! The grade containers: vectors (planes), bivectors (lines), trivectors
//! (points) and the pseudoscalar.
//!
//! Basis blades are laid out as `e1 e2 e3 e0`, `e12 e31 e23 e01 e02 e03`
//! and `e123 e032 e013 e021`, with `e0 * e0 == 0` and `ei * ei == 1` for the
//! three Euclidean directions.
use vstd::prelude::*;
use crate::scalar::{Scalar, LIMIT, NEG_LIMIT, INVERSE_LIMIT, bounded, times, lemma_mul_bounded};

verus! {

/// A grade-1 element: the plane `e1 x + e2 y + e3 z = e0`.
#[derive(Clone, Copy, Debug, PartialEq, Eq, Structural)]
pub struct Vector {
    pub e1: Scalar,
    pub e2: Scalar,
    pub e3: Scalar,
    pub e0: Scalar,
}

impl Vector {
    pub fn new(e1: Scalar, e2: Scalar, e3: Scalar, e0: Scalar) -> (r: Self)
        ensures
            r == (Vector { e1, e2, e3, e0 }),
    {
        Vector { e1, e2, e3, e0 }
    }

    /// The grade, 1.
    pub fn grade() -> (r: u8)
        ensures
            r == 1,
    {
        1
    }

    /// The Euclidean coefficients, in layout order.
    pub fn real_part(&self) -> (r: Vec<Scalar>)
        ensures
            r@ == seq![self.e1, self.e2, self.e3],
    {
        vec![self.e1, self.e2, self.e3]
    }

    /// The ideal coefficients, in layout order.
    pub fn ideal_part(&self) -> (r: Vec<Scalar>)
        ensures
            r@ == seq![self.e0],
    {
        vec![self.e0]
    }

    /// The basis element `e1`.
    pub fn e1() -> (r: Self)
        ensures
            r == (Vector { e1: 1, e2: 0, e3: 0, e0: 0 }),
    {
        Vector { e1: 1, e2: 0, e3: 0, e0: 0 }
    }

    /// The basis element `e2`.
    pub fn e2() -> (r: Self)
        ensures
            r == (Vector { e1: 0, e2: 1, e3: 0, e0: 0 }),
    {
        Vector { e1: 0, e2: 1, e3: 0, e0: 0 }
    }

    /// The basis element `e3`.
    pub fn e3() -> (r: Self)
        ensures
            r == (Vector { e1: 0, e2: 0, e3: 1, e0: 0 }),
    {
        Vector { e1: 0, e2: 0, e3: 1, e0: 0 }
    }

    /// The basis element `e0`.
    pub fn e0() -> (r: Self)
        ensures
            r == (Vector { e1: 0, e2: 0, e3: 0, e0: 1 }),
    {
        Vector { e1: 0, e2: 0, e3: 0, e0: 1 }
    }

    pub open spec fn spec_zero() -> Self {
        Vector { e1: 0, e2: 0, e3: 0, e0: 0 }
    }

    /// The zero element of this grade.
    pub fn zero() -> (r: Self)
        ensures
            r == Self::spec_zero(),
    {
        Vector { e1: 0, e2: 0, e3: 0, e0: 0 }
    }

    /// Every coefficient lies in `[-bound, bound]`.
    pub open spec fn within(self, bound: int) -> bool {
        &&& bounded(self.e1 as int, bound)
        &&& bounded(self.e2 as int, bound)
        &&& bounded(self.e3 as int, bound)
        &&& bounded(self.e0 as int, bound)
    }

    /// Every coefficient is zero.
    pub open spec fn spec_is_zero(self) -> bool {
        &&& self.e1 == 0
        &&& self.e2 == 0
        &&& self.e3 == 0
        &&& self.e0 == 0
    }

    pub open spec fn spec_add(self, rhs: Self) -> Self {
        Vector {
            e1: (self.e1 + rhs.e1) as Scalar,
            e2: (self.e2 + rhs.e2) as Scalar,
            e3: (self.e3 + rhs.e3) as Scalar,
            e0: (self.e0 + rhs.e0) as Scalar,
        }
    }

    /// Componentwise sum.
    pub fn add(&self, rhs: &Self) -> (r: Self)
        requires
            self.within(LIMIT as int),
            rhs.within(LIMIT as int),
        ensures
            r == self.spec_add(*rhs),
    {
        Vector {
            e1: self.e1 + rhs.e1,
            e2: self.e2 + rhs.e2,
            e3: self.e3 + rhs.e3,
            e0: self.e0 + rhs.e0,
        }
    }

    pub open spec fn spec_sub(self, rhs: Self) -> Self {
        Vector {
            e1: (self.e1 - rhs.e1) as Scalar,
            e2: (self.e2 - rhs.e2) as Scalar,
            e3: (self.e3 - rhs.e3) as Scalar,
            e0: (self.e0 - rhs.e0) as Scalar,
        }
    }

    /// Componentwise difference.
    pub fn sub(&self, rhs: &Self) -> (r: Self)
        requires
            self.within(LIMIT as int),
            rhs.within(LIMIT as int),
        ensures
            r == self.spec_sub(*rhs),
    {
        Vector {
            e1: self.e1 - rhs.e1,
            e2: self.e2 - rhs.e2,
            e3: self.e3 - rhs.e3,
            e0: self.e0 - rhs.e0,
        }
    }

    pub open spec fn spec_neg(self) -> Self {
        Vector {
            e1: (-self.e1) as Scalar,
            e2: (-self.e2) as Scalar,
            e3: (-self.e3) as Scalar,
            e0: (-self.e0) as Scalar,
        }
    }

    /// Componentwise negation.
    pub fn neg(&self) -> (r: Self)
        requires
            self.within(NEG_LIMIT as int),
        ensures
            r == self.spec_neg(),
    {
        Vector { e1: -self.e1, e2: -self.e2, e3: -self.e3, e0: -self.e0 }
    }

    pub open spec fn spec_scale(self, s: Scalar) -> Self {
        Vector {
            e1: (self.e1 * s) as Scalar,
            e2: (self.e2 * s) as Scalar,
            e3: (self.e3 * s) as Scalar,
            e0: (self.e0 * s) as Scalar,
        }
    }

    /// Every coefficient multiplied by `s`.
    pub fn scale(&self, s: Scalar) -> (r: Self)
        requires
            self.within(LIMIT as int),
            bounded(s as int, LIMIT as int),
        ensures
            r == self.spec_scale(s),
    {
        Vector {
            e1: times(self.e1, s),
            e2: times(self.e2, s),
            e3: times(self.e3, s),
            e0: times(self.e0, s),
        }
    }

    pub open spec fn spec_reverse(self) -> Self {
        Vector { e1: self.e1, e2: self.e2, e3: self.e3, e0: self.e0 }
    }

    /// The reverse: the sign of a grade-1 element under reversal of its basis factors.
    pub fn reverse(&self) -> (r: Self)
        ensures
            r == self.spec_reverse(),
    {
        Vector { e1: self.e1, e2: self.e2, e3: self.e3, e0: self.e0 }
    }

    pub open spec fn spec_grade_involution(self) -> Self {
        Vector {
            e1: (-self.e1) as Scalar,
            e2: (-self.e2) as Scalar,
            e3: (-self.e3) as Scalar,
            e0: (-self.e0) as Scalar,
        }
    }

    /// The grade involution: multiplication by `(-1)^1`.
    pub fn grade_involution(&self) -> (r: Self)
        requires
            self.within(NEG_LIMIT as int),
        ensures
            r == self.spec_grade_involution(),
    {
        Vector { e1: -self.e1, e2: -self.e2, e3: -self.e3, e0: -self.e0 }
    }

}

/// A grade-2 element: a line, with a real half (`e12`, `e31`, `e23`) and an ideal
/// half (`e01`, `e02`, `e03`).
#[derive(Clone, Copy, Debug, PartialEq, Eq, Structural)]
pub struct Bivector {
    pub e12: Scalar,
    pub e31: Scalar,
    pub e23: Scalar,
    pub e01: Scalar,
    pub e02: Scalar,
    pub e03: Scalar,
}

impl Bivector {
    pub fn new(
        e12: Scalar,
        e31: Scalar,
        e23: Scalar,
        e01: Scalar,
        e02: Scalar,
        e03: Scalar,
    ) -> (r: Self)
        ensures
            r == (Bivector { e12, e31, e23, e01, e02, e03 }),
    {
        Bivector { e12, e31, e23, e01, e02, e03 }
    }

    /// The grade, 2.
    pub fn grade() -> (r: u8)
        ensures
            r == 2,
    {
        2
    }

    /// The Euclidean coefficients, in layout order.
    pub fn real_part(&self) -> (r: Vec<Scalar>)
        ensures
            r@ == seq![self.e12, self.e31, self.e23],
    {
        vec![self.e12, self.e31, self.e23]
    }

    /// The ideal coefficients, in layout order.
    pub fn ideal_part(&self) -> (r: Vec<Scalar>)
        ensures
            r@ == seq![self.e01, self.e02, self.e03],
    {
        vec![self.e01, self.e02, self.e03]
    }

    /// The basis element `e12`.
    pub fn e12() -> (r: Self)
        ensures
            r == (Bivector { e12: 1, e31: 0, e23: 0, e01: 0, e02: 0, e03: 0 }),
    {
        Bivector { e12: 1, e31: 0, e23: 0, e01: 0, e02: 0, e03: 0 }
    }

    /// The basis element `e31`.
    pub fn e31() -> (r: Self)
        ensures
            r == (Bivector { e12: 0, e31: 1, e23: 0, e01: 0, e02: 0, e03: 0 }),
    {
        Bivector { e12: 0, e31: 1, e23: 0, e01: 0, e02: 0, e03: 0 }
    }

    /// The basis element `e23`.
    pub fn e23() -> (r: Self)
        ensures
            r == (Bivector { e12: 0, e31: 0, e23: 1, e01: 0, e02: 0, e03: 0 }),
    {
        Bivector { e12: 0, e31: 0, e23: 1, e01: 0, e02: 0, e03: 0 }
    }

    /// The basis element `e01`.
    pub fn e01() -> (r: Self)
        ensures
            r == (Bivector { e12: 0, e31: 0, e23: 0, e01: 1, e02: 0, e03: 0 }),
    {
        Bivector { e12: 0, e31: 0, e23: 0, e01: 1, e02: 0, e03: 0 }
    }

    /// The basis element `e02`.
    pub fn e02() -> (r: Self)
        ensures
            r == (Bivector { e12: 0, e31: 0, e23: 0, e01: 0, e02: 1, e03: 0 }),
    {
        Bivector { e12: 0, e31: 0, e23: 0, e01: 0, e02: 1, e03: 0 }
    }

    /// The basis element `e03`.
    pub fn e03() -> (r: Self)
        ensures
            r == (Bivector { e12: 0, e31: 0, e23: 0, e01: 0, e02: 0, e03: 1 }),
    {
        Bivector { e12: 0, e31: 0, e23: 0, e01: 0, e02: 0, e03: 1 }
    }

    pub open spec fn spec_zero() -> Self {
        Bivector { e12: 0, e31: 0, e23: 0, e01: 0, e02: 0, e03: 0 }
    }

    /// The zero element of this grade.
    pub fn zero() -> (r: Self)
        ensures
            r == Self::spec_zero(),
    {
        Bivector { e12: 0, e31: 0, e23: 0, e01: 0, e02: 0, e03: 0 }
    }

    /// Every coefficient lies in `[-bound, bound]`.
    pub open spec fn within(self, bound: int) -> bool {
        &&& bounded(self.e12 as int, bound)
        &&& bounded(self.e31 as int, bound)
        &&& bounded(self.e23 as int, bound)
        &&& bounded(self.e01 as int, bound)
        &&& bounded(self.e02 as int, bound)
        &&& bounded(self.e03 as int, bound)
    }

    /// Every coefficient is zero.
    pub open spec fn spec_is_zero(self) -> bool {
        &&& self.e12 == 0
        &&& self.e31 == 0
        &&& self.e23 == 0
        &&& self.e01 == 0
        &&& self.e02 == 0
        &&& self.e03 == 0
    }

    pub open spec fn spec_add(self, rhs: Self) -> Self {
        Bivector {
            e12: (self.e12 + rhs.e12) as Scalar,
            e31: (self.e31 + rhs.e31) as Scalar,
            e23: (self.e23 + rhs.e23) as Scalar,
            e01: (self.e01 + rhs.e01) as Scalar,
            e02: (self.e02 + rhs.e02) as Scalar,
            e03: (self.e03 + rhs.e03) as Scalar,
        }
    }

    /// Componentwise sum.
    pub fn add(&self, rhs: &Self) -> (r: Self)
        requires
            self.within(LIMIT as int),
            rhs.within(LIMIT as int),
        ensures
            r == self.spec_add(*rhs),
    {
        Bivector {
            e12: self.e12 + rhs.e12,
            e31: self.e31 + rhs.e31,
            e23: self.e23 + rhs.e23,
            e01: self.e01 + rhs.e01,
            e02: self.e02 + rhs.e02,
            e03: self.e03 + rhs.e03,
        }
    }

    pub open spec fn spec_sub(self, rhs: Self) -> Self {
        Bivector {
            e12: (self.e12 - rhs.e12) as Scalar,
            e31: (self.e31 - rhs.e31) as Scalar,
            e23: (self.e23 - rhs.e23) as Scalar,
            e01: (self.e01 - rhs.e01) as Scalar,
            e02: (self.e02 - rhs.e02) as Scalar,
            e03: (self.e03 - rhs.e03) as Scalar,
        }
    }

    /// Componentwise difference.
    pub fn sub(&self, rhs: &Self) -> (r: Self)
        requires
            self.within(LIMIT as int),
            rhs.within(LIMIT as int),
        ensures
            r == self.spec_sub(*rhs),
    {
        Bivector {
            e12: self.e12 - rhs.e12,
            e31: self.e31 - rhs.e31,
            e23: self.e23 - rhs.e23,
            e01: self.e01 - rhs.e01,
            e02: self.e02 - rhs.e02,
            e03: self.e03 - rhs.e03,
        }
    }

    pub open spec fn spec_neg(self) -> Self {
        Bivector {
            e12: (-self.e12) as Scalar,
            e31: (-self.e31) as Scalar,
            e23: (-self.e23) as Scalar,
            e01: (-self.e01) as Scalar,
            e02: (-self.e02) as Scalar,
            e03: (-self.e03) as Scalar,
        }
    }

    /// Componentwise negation.
    pub fn neg(&self) -> (r: Self)
        requires
            self.within(NEG_LIMIT as int),
        ensures
            r == self.spec_neg(),
    {
        Bivector {
            e12: -self.e12,
            e31: -self.e31,
            e23: -self.e23,
            e01: -self.e01,
            e02: -self.e02,
            e03: -self.e03,
        }
    }

    pub open spec fn spec_scale(self, s: Scalar) -> Self {
        Bivector {
            e12: (self.e12 * s) as Scalar,
            e31: (self.e31 * s) as Scalar,
            e23: (self.e23 * s) as Scalar,
            e01: (self.e01 * s) as Scalar,
            e02: (self.e02 * s) as Scalar,
            e03: (self.e03 * s) as Scalar,
        }
    }

    /// Every coefficient multiplied by `s`.
    pub fn scale(&self, s: Scalar) -> (r: Self)
        requires
            self.within(LIMIT as int),
            bounded(s as int, LIMIT as int),
        ensures
            r == self.spec_scale(s),
    {
        Bivector {
            e12: times(self.e12, s),
            e31: times(self.e31, s),
            e23: times(self.e23, s),
            e01: times(self.e01, s),
            e02: times(self.e02, s),
            e03: times(self.e03, s),
        }
    }

    pub open spec fn spec_reverse(self) -> Self {
        Bivector {
            e12: (-self.e12) as Scalar,
            e31: (-self.e31) as Scalar,
            e23: (-self.e23) as Scalar,
            e01: (-self.e01) as Scalar,
            e02: (-self.e02) as Scalar,
            e03: (-self.e03) as Scalar,
        }
    }

    /// The reverse: the sign of a grade-2 element under reversal of its basis factors.
    pub fn reverse(&self) -> (r: Self)
        requires
            self.within(NEG_LIMIT as int),
        ensures
            r == self.spec_reverse(),
    {
        Bivector {
            e12: -self.e12,
            e31: -self.e31,
            e23: -self.e23,
            e01: -self.e01,
            e02: -self.e02,
            e03: -self.e03,
        }
    }

    pub open spec fn spec_grade_involution(self) -> Self {
        Bivector {
            e12: self.e12,
            e31: self.e31,
            e23: self.e23,
            e01: self.e01,
            e02: self.e02,
            e03: self.e03,
        }
    }

    /// The grade involution: multiplication by `(-1)^2`.
    pub fn grade_involution(&self) -> (r: Self)
        ensures
            r == self.spec_grade_involution(),
    {
        Bivector {
            e12: self.e12,
            e31: self.e31,
            e23: self.e23,
            e01: self.e01,
            e02: self.e02,
            e03: self.e03,
        }
    }

}

/// A grade-3 element: a point with weight `e123` and negated coordinates `e032`,
/// `e013`, `e021`; a direction (a point at infinity) when the weight is zero.
#[derive(Clone, Copy, Debug, PartialEq, Eq, Structural)]
pub struct Trivector {
    pub e123: Scalar,
    pub e032: Scalar,
    pub e013: Scalar,
    pub e021: Scalar,
}

impl Trivector {
    pub fn new(e123: Scalar, e032: Scalar, e013: Scalar, e021: Scalar) -> (r: Self)
        ensures
            r == (Trivector { e123, e032, e013, e021 }),
    {
        Trivector { e123, e032, e013, e021 }
    }

    /// The grade, 3.
    pub fn grade() -> (r: u8)
        ensures
            r == 3,
    {
        3
    }

    /// The Euclidean coefficients, in layout order.
    pub fn real_part(&self) -> (r: Vec<Scalar>)
        ensures
            r@ == seq![self.e123],
    {
        vec![self.e123]
    }

    /// The ideal coefficients, in layout order.
    pub fn ideal_part(&self) -> (r: Vec<Scalar>)
        ensures
            r@ == seq![self.e032, self.e013, self.e021],
    {
        vec![self.e032, self.e013, self.e021]
    }

    /// The basis element `e123`.
    pub fn e123() -> (r: Self)
        ensures
            r == (Trivector { e123: 1, e032: 0, e013: 0, e021: 0 }),
    {
        Trivector { e123: 1, e032: 0, e013: 0, e021: 0 }
    }

    /// The basis element `e032`.
    pub fn e032() -> (r: Self)
        ensures
            r == (Trivector { e123: 0, e032: 1, e013: 0, e021: 0 }),
    {
        Trivector { e123: 0, e032: 1, e013: 0, e021: 0 }
    }

    /// The basis element `e013`.
    pub fn e013() -> (r: Self)
        ensures
            r == (Trivector { e123: 0, e032: 0, e013: 1, e021: 0 }),
    {
        Trivector { e123: 0, e032: 0, e013: 1, e021: 0 }
    }

    /// The basis element `e021`.
    pub fn e021() -> (r: Self)
        ensures
            r == (Trivector { e123: 0, e032: 0, e013: 0, e021: 1 }),
    {
        Trivector { e123: 0, e032: 0, e013: 0, e021: 1 }
    }

    pub open spec fn spec_zero() -> Self {
        Trivector { e123: 0, e032: 0, e013: 0, e021: 0 }
    }

    /// The zero element of this grade.
    pub fn zero() -> (r: Self)
        ensures
            r == Self::spec_zero(),
    {
        Trivector { e123: 0, e032: 0, e013: 0, e021: 0 }
    }

    /// Every coefficient lies in `[-bound, bound]`.
    pub open spec fn within(self, bound: int) -> bool {
        &&& bounded(self.e123 as int, bound)
        &&& bounded(self.e032 as int, bound)
        &&& bounded(self.e013 as int, bound)
        &&& bounded(self.e021 as int, bound)
    }

    /// Every coefficient is zero.
    pub open spec fn spec_is_zero(self) -> bool {
        &&& self.e123 == 0
        &&& self.e032 == 0
        &&& self.e013 == 0
        &&& self.e021 == 0
    }

    pub open spec fn spec_add(self, rhs: Self) -> Self {
        Trivector {
            e123: (self.e123 + rhs.e123) as Scalar,
            e032: (self.e032 + rhs.e032) as Scalar,
            e013: (self.e013 + rhs.e013) as Scalar,
            e021: (self.e021 + rhs.e021) as Scalar,
        }
    }

    /// Componentwise sum.
    pub fn add(&self, rhs: &Self) -> (r: Self)
        requires
            self.within(LIMIT as int),
            rhs.within(LIMIT as int),
        ensures
            r == self.spec_add(*rhs),
    {
        Trivector {
            e123: self.e123 + rhs.e123,
            e032: self.e032 + rhs.e032,
            e013: self.e013 + rhs.e013,
            e021: self.e021 + rhs.e021,
        }
    }

    pub open spec fn spec_sub(self, rhs: Self) -> Self {
        Trivector {
            e123: (self.e123 - rhs.e123) as Scalar,
            e032: (self.e032 - rhs.e032) as Scalar,
            e013: (self.e013 - rhs.e013) as Scalar,
            e021: (self.e021 - rhs.e021) as Scalar,
        }
    }

    /// Componentwise difference.
    pub fn sub(&self, rhs: &Self) -> (r: Self)
        requires
            self.within(LIMIT as int),
            rhs.within(LIMIT as int),
        ensures
            r == self.spec_sub(*rhs),
    {
        Trivector {
            e123: self.e123 - rhs.e123,
            e032: self.e032 - rhs.e032,
            e013: self.e013 - rhs.e013,
            e021: self.e021 - rhs.e021,
        }
    }

    pub open spec fn spec_neg(self) -> Self {
        Trivector {
            e123: (-self.e123) as Scalar,
            e032: (-self.e032) as Scalar,
            e013: (-self.e013) as Scalar,
            e021: (-self.e021) as Scalar,
        }
    }

    /// Componentwise negation.
    pub fn neg(&self) -> (r: Self)
        requires
            self.within(NEG_LIMIT as int),
        ensures
            r == self.spec_neg(),
    {
        Trivector { e123: -self.e123, e032: -self.e032, e013: -self.e013, e021: -self.e021 }
    }

    pub open spec fn spec_scale(self, s: Scalar) -> Self {
        Trivector {
            e123: (self.e123 * s) as Scalar,
            e032: (self.e032 * s) as Scalar,
            e013: (self.e013 * s) as Scalar,
            e021: (self.e021 * s) as Scalar,
        }
    }

    /// Every coefficient multiplied by `s`.
    pub fn scale(&self, s: Scalar) -> (r: Self)
        requires
            self.within(LIMIT as int),
            bounded(s as int, LIMIT as int),
        ensures
            r == self.spec_scale(s),
    {
        Trivector {
            e123: times(self.e123, s),
            e032: times(self.e032, s),
            e013: times(self.e013, s),
            e021: times(self.e021, s),
        }
    }

    pub open spec fn spec_reverse(self) -> Self {
        Trivector {
            e123: (-self.e123) as Scalar,
            e032: (-self.e032) as Scalar,
            e013: (-self.e013) as Scalar,
            e021: (-self.e021) as Scalar,
        }
    }

    /// The reverse: the sign of a grade-3 element under reversal of its basis factors.
    pub fn reverse(&self) -> (r: Self)
        requires
            self.within(NEG_LIMIT as int),
        ensures
            r == self.spec_reverse(),
    {
        Trivector { e123: -self.e123, e032: -self.e032, e013: -self.e013, e021: -self.e021 }
    }

    pub open spec fn spec_grade_involution(self) -> Self {
        Trivector {
            e123: (-self.e123) as Scalar,
            e032: (-self.e032) as Scalar,
            e013: (-self.e013) as Scalar,
            e021: (-self.e021) as Scalar,
        }
    }

    /// The grade involution: multiplication by `(-1)^3`.
    pub fn grade_involution(&self) -> (r: Self)
        requires
            self.within(NEG_LIMIT as int),
        ensures
            r == self.spec_grade_involution(),
    {
        Trivector { e123: -self.e123, e032: -self.e032, e013: -self.e013, e021: -self.e021 }
    }

}


/// The grade-4 element `e0123`, the volume element.
#[derive(Clone, Copy, Debug, PartialEq, Eq, Structural)]
pub struct Pseudoscalar(pub Scalar);

impl Pseudoscalar {
    /// The basis element `e0123`.
    pub fn e0123() -> (r: Self)
        ensures
            r == Pseudoscalar(1),
    {
        Pseudoscalar(1)
    }

    pub open spec fn within(self, bound: int) -> bool {
        bounded(self.0 as int, bound)
    }

    pub fn add(&self, rhs: &Self) -> (r: Self)
        requires
            self.within(LIMIT as int),
            rhs.within(LIMIT as int),
        ensures
            r.0 == self.0 + rhs.0,
    {
        Pseudoscalar(self.0 + rhs.0)
    }

    pub fn sub(&self, rhs: &Self) -> (r: Self)
        requires
            self.within(LIMIT as int),
            rhs.within(LIMIT as int),
        ensures
            r.0 == self.0 - rhs.0,
    {
        Pseudoscalar(self.0 - rhs.0)
    }

    pub fn neg(&self) -> (r: Self)
        requires
            self.within(NEG_LIMIT as int),
        ensures
            r.0 == -self.0,
    {
        Pseudoscalar(-self.0)
    }

    pub fn scale(&self, s: Scalar) -> (r: Self)
        requires
            self.within(LIMIT as int),
            bounded(s as int, LIMIT as int),
        ensures
            r.0 == self.0 * s,
    {
        Pseudoscalar(times(self.0, s))
    }

    /// Reversal leaves a grade-4 element unchanged.
    pub fn reverse(&self) -> (r: Self)
        ensures
            r == *self,
    {
        *self
    }

    /// Grade involution leaves a grade-4 element unchanged.
    pub fn grade_involution(&self) -> (r: Self)
        ensures
            r == *self,
    {
        *self
    }
}

impl Vector {
    /// The Euclidean (real) part `e1 e2 e3` is zero: a plane at infinity.
    pub open spec fn spec_is_ideal(self) -> bool {
        self.e1 == 0 && self.e2 == 0 && self.e3 == 0
    }

    pub fn is_ideal(&self) -> (r: bool)
        ensures
            r == self.spec_is_ideal(),
    {
        self.e1 == 0 && self.e2 == 0 && self.e3 == 0
    }

    pub open spec fn spec_eucl_norm_squared(self) -> int {
        self.e1 * self.e1 + self.e2 * self.e2 + self.e3 * self.e3
    }

    pub open spec fn spec_ideal_norm_squared(self) -> int {
        self.e0 * self.e0
    }

    /// The square of the Euclidean norm.
    pub fn eucl_norm_squared(&self) -> (r: Scalar)
        requires
            self.within(LIMIT as int),
        ensures
            r == self.spec_eucl_norm_squared(),
    {
        times(self.e1, self.e1) + times(self.e2, self.e2) + times(self.e3, self.e3)
    }

    /// The square of the ideal norm.
    pub fn ideal_norm_squared(&self) -> (r: Scalar)
        requires
            self.within(LIMIT as int),
        ensures
            r == self.spec_ideal_norm_squared(),
    {
        times(self.e0, self.e0)
    }

    /// The squared magnitude: the squared Euclidean norm, or the squared ideal
    /// norm when the Euclidean one vanishes.
    pub open spec fn spec_magnitude_squared(self) -> int {
        if self.spec_eucl_norm_squared() != 0 {
            self.spec_eucl_norm_squared()
        } else {
            self.spec_ideal_norm_squared()
        }
    }

    pub fn magnitude_squared(&self) -> (r: Scalar)
        requires
            self.within(LIMIT as int),
        ensures
            r == self.spec_magnitude_squared(),
    {
        let e = self.eucl_norm_squared();
        if e != 0 {
            e
        } else {
            self.ideal_norm_squared()
        }
    }

    /// The dual: the point whose weight is `e0` and whose coordinates are `e1 e2 e3`.
    pub open spec fn spec_dual(self) -> Trivector {
        Trivector { e123: self.e0, e032: self.e1, e013: self.e2, e021: self.e3 }
    }

    /// The undual, the inverse map of `Trivector::dual`.
    pub open spec fn spec_undual(self) -> Trivector {
        Trivector {
            e123: (-self.e0) as Scalar,
            e032: (-self.e1) as Scalar,
            e013: (-self.e2) as Scalar,
            e021: (-self.e3) as Scalar,
        }
    }

    pub fn dual(&self) -> (r: Trivector)
        ensures
            r == self.spec_dual(),
    {
        Trivector { e123: self.e0, e032: self.e1, e013: self.e2, e021: self.e3 }
    }

    pub fn undual(&self) -> (r: Trivector)
        requires
            self.within(NEG_LIMIT as int),
        ensures
            r == self.spec_undual(),
    {
        Trivector { e123: -self.e0, e032: -self.e1, e013: -self.e2, e021: -self.e3 }
    }

    /// The inverse as a numerator and a positive denominator:
    /// `v⁻¹ == n / d` with `n` the reverse and `d` the squared Euclidean norm.
    /// A plane at infinity has none.
    pub fn inverse(&self) -> (r: Option<(Vector, Scalar)>)
        requires
            self.within(LIMIT as int),
        ensures
            r is None <==> self.spec_is_ideal(),
            r matches Some((n, d)) ==> n == self.spec_reverse() && d
                == self.spec_eucl_norm_squared() && d > 0,
    {
        if self.is_ideal() {
            None
        } else {
            let d = self.eucl_norm_squared();
            proof {
                assert(self.e1 * self.e1 >= 0 && self.e2 * self.e2 >= 0 && self.e3 * self.e3 >= 0)
                    by (nonlinear_arith);
                assert(self.e1 * self.e1 > 0 || self.e2 * self.e2 > 0 || self.e3 * self.e3 > 0)
                    by (nonlinear_arith)
                    requires
                        !self.spec_is_ideal(),
                ;
            }
            Some((self.reverse(), d))
        }
    }
}

impl Bivector {
    /// The real part `e12 e31 e23` is zero: a line at infinity.
    pub open spec fn spec_is_ideal(self) -> bool {
        self.e12 == 0 && self.e31 == 0 && self.e23 == 0
    }

    pub fn is_ideal(&self) -> (r: bool)
        ensures
            r == self.spec_is_ideal(),
    {
        self.e12 == 0 && self.e31 == 0 && self.e23 == 0
    }

    pub open spec fn spec_eucl_norm_squared(self) -> int {
        self.e12 * self.e12 + self.e31 * self.e31 + self.e23 * self.e23
    }

    pub open spec fn spec_ideal_norm_squared(self) -> int {
        self.e01 * self.e01 + self.e02 * self.e02 + self.e03 * self.e03
    }

    /// The square of the Euclidean norm.
    pub fn eucl_norm_squared(&self) -> (r: Scalar)
        requires
            self.within(LIMIT as int),
        ensures
            r == self.spec_eucl_norm_squared(),
    {
        times(self.e12, self.e12) + times(self.e31, self.e31) + times(self.e23, self.e23)
    }

    /// The square of the ideal norm.
    pub fn ideal_norm_squared(&self) -> (r: Scalar)
        requires
            self.within(LIMIT as int),
        ensures
            r == self.spec_ideal_norm_squared(),
    {
        times(self.e01, self.e01) + times(self.e02, self.e02) + times(self.e03, self.e03)
    }

    /// The squared magnitude: the squared Euclidean norm, or the squared ideal
    /// norm when the Euclidean one vanishes.
    pub open spec fn spec_magnitude_squared(self) -> int {
        if self.spec_eucl_norm_squared() != 0 {
            self.spec_eucl_norm_squared()
        } else {
            self.spec_ideal_norm_squared()
        }
    }

    pub fn magnitude_squared(&self) -> (r: Scalar)
        requires
            self.within(LIMIT as int),
        ensures
            r == self.spec_magnitude_squared(),
    {
        let e = self.eucl_norm_squared();
        if e != 0 {
            e
        } else {
            self.ideal_norm_squared()
        }
    }

    /// The dual swaps each real component with the ideal one of the complementary plane.
    pub open spec fn spec_dual(self) -> Bivector {
        Bivector {
            e12: self.e03,
            e31: self.e02,
            e23: self.e01,
            e01: self.e23,
            e02: self.e31,
            e03: self.e12,
        }
    }

    pub fn dual(&self) -> (r: Bivector)
        ensures
            r == self.spec_dual(),
    {
        Bivector {
            e12: self.e03,
            e31: self.e02,
            e23: self.e01,
            e01: self.e23,
            e02: self.e31,
            e03: self.e12,
        }
    }

    /// The pseudoscalar coefficient of `b * reverse(b)`.
    pub open spec fn spec_study(self) -> int {
        -2 * (self.e12 * self.e03 + self.e31 * self.e02 + self.e23 * self.e01)
    }

    /// The inverse as a numerator and a positive denominator, `b⁻¹ == n / d`.
    /// With `b * reverse(b) == s + p e0123`, the numerator is
    /// `reverse(b) * (s - p e0123)` and the denominator `s * s`.
    /// A line at infinity has none.
    pub fn inverse(&self) -> (r: Option<(Bivector, Scalar)>)
        requires
            self.within(INVERSE_LIMIT as int),
        ensures
            r is None <==> self.spec_is_ideal(),
            r matches Some((n, d)) ==> {
                let s = self.spec_eucl_norm_squared();
                let p = self.spec_study();
                &&& d == s * s
                &&& d > 0
                &&& n.e12 == -(s * self.e12)
                &&& n.e31 == -(s * self.e31)
                &&& n.e23 == -(s * self.e23)
                &&& n.e01 == -(s * self.e01) - p * self.e23
                &&& n.e02 == -(s * self.e02) - p * self.e31
                &&& n.e03 == -(s * self.e03) - p * self.e12
            },
    {
        if self.is_ideal() {
            return None;
        }
        proof {
            let b = INVERSE_LIMIT as int;
            lemma_mul_bounded(self.e12 as int, self.e12 as int, b);
            lemma_mul_bounded(self.e31 as int, self.e31 as int, b);
            lemma_mul_bounded(self.e23 as int, self.e23 as int, b);
            lemma_mul_bounded(self.e12 as int, self.e03 as int, b);
            lemma_mul_bounded(self.e31 as int, self.e02 as int, b);
            lemma_mul_bounded(self.e23 as int, self.e01 as int, b);
            assert(self.e12 * self.e12 >= 0 && self.e31 * self.e31 >= 0 && self.e23 * self.e23
                >= 0) by (nonlinear_arith);
            assert(self.e12 * self.e12 > 0 || self.e31 * self.e31 > 0 || self.e23 * self.e23 > 0)
                by (nonlinear_arith)
                requires
                    !self.spec_is_ideal(),
            ;
        }
        let s = self.eucl_norm_squared();
        let p = -2 * (times(self.e12, self.e03) + times(self.e31, self.e02) + times(
            self.e23,
            self.e01,
        ));
        let n = Bivector {
            e12: -times(s, self.e12),
            e31: -times(s, self.e31),
            e23: -times(s, self.e23),
            e01: -times(s, self.e01) - times(p, self.e23),
            e02: -times(s, self.e02) - times(p, self.e31),
            e03: -times(s, self.e03) - times(p, self.e12),
        };
        proof {
            assert(s * s > 0) by (nonlinear_arith)
                requires
                    s > 0,
            ;
        }
        Some((n, times(s, s)))
    }

    /// On bivectors the undual is the dual.
    pub fn undual(&self) -> (r: Bivector)
        ensures
            r == self.spec_dual(),
    {
        self.dual()
    }
}

impl Trivector {
    /// The point `(x, y, z)` of weight one. Its coordinates are stored negated:
    /// `e123 - x e032 - y e013 - z e021`.
    pub open spec fn spec_point(x: Scalar, y: Scalar, z: Scalar) -> Self {
        Trivector { e123: 1, e032: (-x) as Scalar, e013: (-y) as Scalar, e021: (-z) as Scalar }
    }

    /// The direction `(x, y, z)`, a point at infinity of weight zero, stored
    /// negated like the coordinates of a point.
    pub open spec fn spec_direction(x: Scalar, y: Scalar, z: Scalar) -> Self {
        Trivector { e123: 0, e032: (-x) as Scalar, e013: (-y) as Scalar, e021: (-z) as Scalar }
    }

    pub fn point(x: Scalar, y: Scalar, z: Scalar) -> (r: Self)
        requires
            bounded(x as int, NEG_LIMIT as int),
            bounded(y as int, NEG_LIMIT as int),
            bounded(z as int, NEG_LIMIT as int),
        ensures
            r == Self::spec_point(x, y, z),
    {
        Trivector { e123: 1, e032: -x, e013: -y, e021: -z }
    }

    pub fn direction(x: Scalar, y: Scalar, z: Scalar) -> (r: Self)
        requires
            bounded(x as int, NEG_LIMIT as int),
            bounded(y as int, NEG_LIMIT as int),
            bounded(z as int, NEG_LIMIT as int),
        ensures
            r == Self::spec_direction(x, y, z),
    {
        Trivector { e123: 0, e032: -x, e013: -y, e021: -z }
    }

    /// The weight `e123` is zero: a direction.
    pub open spec fn spec_is_ideal(self) -> bool {
        self.e123 == 0
    }

    pub fn is_ideal(&self) -> (r: bool)
        ensures
            r == self.spec_is_ideal(),
    {
        self.e123 == 0
    }

    pub open spec fn spec_eucl_norm_squared(self) -> int {
        self.e123 * self.e123
    }

    pub open spec fn spec_ideal_norm_squared(self) -> int {
        self.e032 * self.e032 + self.e013 * self.e013 + self.e021 * self.e021
    }

    /// The square of the Euclidean norm, which is the square of the weight.
    pub fn eucl_norm_squared(&self) -> (r: Scalar)
        requires
            self.within(LIMIT as int),
        ensures
            r == self.spec_eucl_norm_squared(),
    {
        times(self.e123, self.e123)
    }

    /// The square of the ideal norm.
    pub fn ideal_norm_squared(&self) -> (r: Scalar)
        requires
            self.within(LIMIT as int),
        ensures
            r == self.spec_ideal_norm_squared(),
    {
        times(self.e032, self.e032) + times(self.e013, self.e013) + times(self.e021, self.e021)
    }

    /// The squared magnitude: the squared Euclidean norm, or the squared ideal
    /// norm when the Euclidean one vanishes.
    pub open spec fn spec_magnitude_squared(self) -> int {
        if self.spec_eucl_norm_squared() != 0 {
            self.spec_eucl_norm_squared()
        } else {
            self.spec_ideal_norm_squared()
        }
    }

    pub fn magnitude_squared(&self) -> (r: Scalar)
        requires
            self.within(LIMIT as int),
        ensures
            r == self.spec_magnitude_squared(),
    {
        let e = self.eucl_norm_squared();
        if e != 0 {
            e
        } else {
            self.ideal_norm_squared()
        }
    }

    /// The dual: the plane `-(e032 e1 + e013 e2 + e021 e3 + e123 e0)`.
    pub open spec fn spec_dual(self) -> Vector {
        Vector {
            e1: (-self.e032) as Scalar,
            e2: (-self.e013) as Scalar,
            e3: (-self.e021) as Scalar,
            e0: (-self.e123) as Scalar,
        }
    }

    /// The undual, the inverse map of `Vector::dual`.
    pub open spec fn spec_undual(self) -> Vector {
        Vector { e1: self.e032, e2: self.e013, e3: self.e021, e0: self.e123 }
    }

    pub fn dual(&self) -> (r: Vector)
        requires
            self.within(NEG_LIMIT as int),
        ensures
            r == self.spec_dual(),
    {
        Vector { e1: -self.e032, e2: -self.e013, e3: -self.e021, e0: -self.e123 }
    }

    pub fn undual(&self) -> (r: Vector)
        ensures
            r == self.spec_undual(),
    {
        Vector { e1: self.e032, e2: self.e013, e3: self.e021, e0: self.e123 }
    }

    /// The inverse as a numerator and a positive denominator:
    /// `t⁻¹ == n / d` with `n` the reverse and `d` the squared weight.
    /// A direction has none.
    pub fn inverse(&self) -> (r: Option<(Trivector, Scalar)>)
        requires
            self.within(LIMIT as int),
        ensures
            r is None <==> self.spec_is_ideal(),
            r matches Some((n, d)) ==> n == self.spec_reverse() && d
                == self.spec_eucl_norm_squared() && d > 0,
    {
        if self.is_ideal() {
            None
        } else {
            let d = self.eucl_norm_squared();
            proof {
                assert(self.e123 * self.e123 > 0) by (nonlinear_arith)
                    requires
                        self.e123 != 0,
                ;
            }
            Some((self.reverse(), d))
        }
    }
}

} // verus!

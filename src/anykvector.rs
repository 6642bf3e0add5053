//! A k-vector of any single grade, and the grade-wise products.
use vstd::prelude::*;
use crate::scalar::{Scalar, LIMIT, NEG_LIMIT, bounded};
use crate::kvector::{Vector, Bivector, Trivector, Pseudoscalar};
use crate::multivector::{Motor, OddVersor, Multivector, Element, product};

verus! {

/// A k-vector whose grade is known only at run time.
///
/// `Zero(0)` is the canonical zero, whatever grade a computation had in view.
#[derive(Clone, Copy, Debug, PartialEq, Eq, Structural)]
pub enum AnyKVector {
    Zero(Scalar),
    One(Vector),
    Two(Bivector),
    Three(Trivector),
    Four(Pseudoscalar),
}

/// The grade-`k` part of a general element; zero for a grade above four.
pub open spec fn grade_part(e: Element, k: int) -> AnyKVector {
    if k == 0 {
        AnyKVector::Zero(e.s as Scalar)
    } else if k == 1 {
        AnyKVector::One(e.odd_part().vector())
    } else if k == 2 {
        AnyKVector::Two(e.even_part().bivector())
    } else if k == 3 {
        AnyKVector::Three(e.odd_part().trivector())
    } else if k == 4 {
        AnyKVector::Four(Pseudoscalar(e.e0123 as Scalar))
    } else {
        AnyKVector::Zero(0)
    }
}

/// The grade-`k` part of `m`.
pub fn get_grade_part(m: &Multivector, k: u8) -> (r: AnyKVector)
    ensures
        r == grade_part(m.value(), k as int),
{
    if k == 0 {
        AnyKVector::Zero(m.even.s)
    } else if k == 1 {
        AnyKVector::One(m.odd.get_vector())
    } else if k == 2 {
        AnyKVector::Two(m.even.get_bivector())
    } else if k == 3 {
        AnyKVector::Three(m.odd.get_trivector())
    } else if k == 4 {
        AnyKVector::Four(Pseudoscalar(m.even.e0123))
    } else {
        AnyKVector::Zero(0)
    }
}

/// A k-vector whose coefficients are all zero becomes the canonical `Zero(0)`.
pub open spec fn snap(k: AnyKVector) -> AnyKVector {
    if k.spec_is_zero() {
        AnyKVector::Zero(0)
    } else {
        k
    }
}

impl AnyKVector {
    pub open spec fn within(self, bound: int) -> bool {
        match self {
            AnyKVector::Zero(s) => bounded(s as int, bound),
            AnyKVector::One(v) => v.within(bound),
            AnyKVector::Two(b) => b.within(bound),
            AnyKVector::Three(t) => t.within(bound),
            AnyKVector::Four(p) => p.within(bound),
        }
    }

    pub open spec fn spec_grade(self) -> int {
        match self {
            AnyKVector::Zero(_) => 0,
            AnyKVector::One(_) => 1,
            AnyKVector::Two(_) => 2,
            AnyKVector::Three(_) => 3,
            AnyKVector::Four(_) => 4,
        }
    }

    /// The grade of the active variant.
    pub fn grade(&self) -> (r: u8)
        ensures
            r == self.spec_grade(),
    {
        match self {
            AnyKVector::Zero(_) => 0,
            AnyKVector::One(_) => 1,
            AnyKVector::Two(_) => 2,
            AnyKVector::Three(_) => 3,
            AnyKVector::Four(_) => 4,
        }
    }

    pub open spec fn spec_is_zero(self) -> bool {
        match self {
            AnyKVector::Zero(s) => s == 0,
            AnyKVector::One(v) => v.spec_is_zero(),
            AnyKVector::Two(b) => b.spec_is_zero(),
            AnyKVector::Three(t) => t.spec_is_zero(),
            AnyKVector::Four(p) => p.0 == 0,
        }
    }

    /// Every coefficient is zero.
    pub fn is_zero(&self) -> (r: bool)
        ensures
            r == self.spec_is_zero(),
    {
        match self {
            AnyKVector::Zero(s) => *s == 0,
            AnyKVector::One(v) => v.e1 == 0 && v.e2 == 0 && v.e3 == 0 && v.e0 == 0,
            AnyKVector::Two(b) => b.e12 == 0 && b.e31 == 0 && b.e23 == 0 && b.e01 == 0 && b.e02
                == 0 && b.e03 == 0,
            AnyKVector::Three(t) => t.e123 == 0 && t.e032 == 0 && t.e013 == 0 && t.e021 == 0,
            AnyKVector::Four(p) => p.0 == 0,
        }
    }

    /// The k-vector as a general element.
    pub open spec fn full(self) -> Multivector {
        match self {
            AnyKVector::Zero(s) => Motor::spec_from_parts(s, Bivector::spec_zero(), 0).full(),
            AnyKVector::One(v) => OddVersor::spec_from_parts(v, Trivector::spec_zero()).full(),
            AnyKVector::Two(b) => Motor::spec_from_parts(0, b, 0).full(),
            AnyKVector::Three(t) => OddVersor::spec_from_parts(Vector::spec_zero(), t).full(),
            AnyKVector::Four(p) => Motor::spec_from_parts(0, Bivector::spec_zero(), p.0).full(),
        }
    }

    /// The value of the k-vector, one coefficient per basis blade.
    pub open spec fn value(self) -> Element {
        self.full().value()
    }

    pub fn to_multivector(&self) -> (r: Multivector)
        ensures
            r == self.full(),
            forall|b: int| self.within(b) && b >= 0 ==> #[trigger] r.within(b),
    {
        match self {
            AnyKVector::Zero(s) => {
                Motor::from_parts(*s, Bivector::zero(), Pseudoscalar(0)).to_multivector()
            },
            AnyKVector::One(v) => OddVersor::from_parts(*v, Trivector::zero()).to_multivector(),
            AnyKVector::Two(b) => Motor::from_parts(0, *b, Pseudoscalar(0)).to_multivector(),
            AnyKVector::Three(t) => OddVersor::from_parts(Vector::zero(), *t).to_multivector(),
            AnyKVector::Four(p) => Motor::from_parts(0, Bivector::zero(), *p).to_multivector(),
        }
    }
    pub open spec fn spec_reverse(self) -> AnyKVector {
        match self {
            AnyKVector::Zero(s) => AnyKVector::Zero(s),
            AnyKVector::One(v) => AnyKVector::One(v.spec_reverse()),
            AnyKVector::Two(b) => AnyKVector::Two(b.spec_reverse()),
            AnyKVector::Three(t) => AnyKVector::Three(t.spec_reverse()),
            AnyKVector::Four(p) => AnyKVector::Four(p),
        }
    }

    /// The reverse of the active variant.
    pub fn reverse(&self) -> (r: AnyKVector)
        requires
            self.within(NEG_LIMIT as int),
        ensures
            r == self.spec_reverse(),
    {
        match self {
            AnyKVector::Zero(s) => AnyKVector::Zero(*s),
            AnyKVector::One(v) => AnyKVector::One(v.reverse()),
            AnyKVector::Two(b) => AnyKVector::Two(b.reverse()),
            AnyKVector::Three(t) => AnyKVector::Three(t.reverse()),
            AnyKVector::Four(p) => AnyKVector::Four(p.reverse()),
        }
    }

    pub open spec fn spec_grade_involution(self) -> AnyKVector {
        match self {
            AnyKVector::Zero(s) => AnyKVector::Zero(s),
            AnyKVector::One(v) => AnyKVector::One(v.spec_grade_involution()),
            AnyKVector::Two(b) => AnyKVector::Two(b.spec_grade_involution()),
            AnyKVector::Three(t) => AnyKVector::Three(t.spec_grade_involution()),
            AnyKVector::Four(p) => AnyKVector::Four(p),
        }
    }

    /// The grade involution of the active variant.
    pub fn grade_involution(&self) -> (r: AnyKVector)
        requires
            self.within(NEG_LIMIT as int),
        ensures
            r == self.spec_grade_involution(),
    {
        match self {
            AnyKVector::Zero(s) => AnyKVector::Zero(*s),
            AnyKVector::One(v) => AnyKVector::One(v.grade_involution()),
            AnyKVector::Two(b) => AnyKVector::Two(b.grade_involution()),
            AnyKVector::Three(t) => AnyKVector::Three(t.grade_involution()),
            AnyKVector::Four(p) => AnyKVector::Four(p.grade_involution()),
        }
    }

    pub open spec fn spec_neg(self) -> AnyKVector {
        match self {
            AnyKVector::Zero(s) => AnyKVector::Zero((-s) as Scalar),
            AnyKVector::One(v) => AnyKVector::One(v.spec_neg()),
            AnyKVector::Two(b) => AnyKVector::Two(b.spec_neg()),
            AnyKVector::Three(t) => AnyKVector::Three(t.spec_neg()),
            AnyKVector::Four(p) => AnyKVector::Four(Pseudoscalar((-p.0) as Scalar)),
        }
    }

    /// The negation of the active variant.
    pub fn neg(&self) -> (r: AnyKVector)
        requires
            self.within(NEG_LIMIT as int),
        ensures
            r == self.spec_neg(),
    {
        match self {
            AnyKVector::Zero(s) => AnyKVector::Zero(-*s),
            AnyKVector::One(v) => AnyKVector::One(v.neg()),
            AnyKVector::Two(b) => AnyKVector::Two(b.neg()),
            AnyKVector::Three(t) => AnyKVector::Three(t.neg()),
            AnyKVector::Four(p) => AnyKVector::Four(p.neg()),
        }
    }

    /// The dual: grade `k` goes to grade `4 - k`. A zero scalar stays the canonical zero.
    pub open spec fn spec_dual(self) -> AnyKVector {
        match self {
            AnyKVector::Zero(s) => if s != 0 {
                AnyKVector::Four(Pseudoscalar(s))
            } else {
                AnyKVector::Zero(0)
            },
            AnyKVector::One(v) => AnyKVector::Three(v.spec_dual()),
            AnyKVector::Two(b) => AnyKVector::Two(b.spec_dual()),
            AnyKVector::Three(t) => AnyKVector::One(t.spec_dual()),
            AnyKVector::Four(p) => AnyKVector::Zero(p.0),
        }
    }

    /// The undual, which undoes the dual; it differs from the dual in sign on grades 1 and 3.
    pub open spec fn spec_undual(self) -> AnyKVector {
        match self {
            AnyKVector::One(v) => AnyKVector::Three(v.spec_undual()),
            AnyKVector::Three(t) => AnyKVector::One(t.spec_undual()),
            _ => self.spec_dual(),
        }
    }

    pub fn dual(&self) -> (r: AnyKVector)
        requires
            self.within(NEG_LIMIT as int),
        ensures
            r == self.spec_dual(),
    {
        match self {
            AnyKVector::Zero(s) => if *s != 0 {
                AnyKVector::Four(Pseudoscalar(*s))
            } else {
                AnyKVector::Zero(0)
            },
            AnyKVector::One(v) => AnyKVector::Three(v.dual()),
            AnyKVector::Two(b) => AnyKVector::Two(b.dual()),
            AnyKVector::Three(t) => AnyKVector::One(t.dual()),
            AnyKVector::Four(p) => AnyKVector::Zero(p.0),
        }
    }

    pub fn undual(&self) -> (r: AnyKVector)
        requires
            self.within(NEG_LIMIT as int),
        ensures
            r == self.spec_undual(),
    {
        match self {
            AnyKVector::One(v) => AnyKVector::Three(v.undual()),
            AnyKVector::Three(t) => AnyKVector::One(t.undual()),
            _ => self.dual(),
        }
    }

    pub open spec fn spec_scale(self, s: Scalar) -> AnyKVector {
        match self {
            AnyKVector::Zero(x) => AnyKVector::Zero((x * s) as Scalar),
            AnyKVector::One(v) => AnyKVector::One(v.spec_scale(s)),
            AnyKVector::Two(b) => AnyKVector::Two(b.spec_scale(s)),
            AnyKVector::Three(t) => AnyKVector::Three(t.spec_scale(s)),
            AnyKVector::Four(p) => AnyKVector::Four(Pseudoscalar((p.0 * s) as Scalar)),
        }
    }

    /// The k-vector multiplied by the scalar `s`.
    pub fn scale(&self, s: Scalar) -> (r: AnyKVector)
        requires
            self.within(LIMIT as int),
            bounded(s as int, LIMIT as int),
        ensures
            r == self.spec_scale(s),
    {
        match self {
            AnyKVector::Zero(x) => AnyKVector::Zero(crate::scalar::times(*x, s)),
            AnyKVector::One(v) => AnyKVector::One(v.scale(s)),
            AnyKVector::Two(b) => AnyKVector::Two(b.scale(s)),
            AnyKVector::Three(t) => AnyKVector::Three(t.scale(s)),
            AnyKVector::Four(p) => AnyKVector::Four(p.scale(s)),
        }
    }

    /// The coefficient of the blade named by the bit mask `basis`.
    pub fn e(&self, basis: u8) -> (r: Scalar)
        ensures
            r == self.value().coefficient(basis as int),
    {
        self.to_multivector().e(basis)
    }

    /// A scalar is never ideal, a pseudoscalar always is; the other grades are
    /// ideal when their Euclidean part vanishes.
    pub open spec fn spec_is_ideal(self) -> bool {
        match self {
            AnyKVector::Zero(_) => false,
            AnyKVector::One(v) => v.spec_is_ideal(),
            AnyKVector::Two(b) => b.spec_is_ideal(),
            AnyKVector::Three(t) => t.spec_is_ideal(),
            AnyKVector::Four(_) => true,
        }
    }

    pub fn is_ideal(&self) -> (r: bool)
        ensures
            r == self.spec_is_ideal(),
    {
        match self {
            AnyKVector::Zero(_) => false,
            AnyKVector::One(v) => v.is_ideal(),
            AnyKVector::Two(b) => b.is_ideal(),
            AnyKVector::Three(t) => t.is_ideal(),
            AnyKVector::Four(_) => true,
        }
    }

    /// The squared magnitude of the active variant; a scalar and a pseudoscalar
    /// measure as the square of their one coefficient.
    pub open spec fn spec_magnitude_squared(self) -> int {
        match self {
            AnyKVector::Zero(s) => s * s,
            AnyKVector::One(v) => v.spec_magnitude_squared(),
            AnyKVector::Two(b) => b.spec_magnitude_squared(),
            AnyKVector::Three(t) => t.spec_magnitude_squared(),
            AnyKVector::Four(p) => p.0 * p.0,
        }
    }

    pub fn magnitude_squared(&self) -> (r: Scalar)
        requires
            self.within(LIMIT as int),
        ensures
            r == self.spec_magnitude_squared(),
    {
        match self {
            AnyKVector::Zero(s) => crate::scalar::times(*s, *s),
            AnyKVector::One(v) => v.magnitude_squared(),
            AnyKVector::Two(b) => b.magnitude_squared(),
            AnyKVector::Three(t) => t.magnitude_squared(),
            AnyKVector::Four(p) => crate::scalar::times(p.0, p.0),
        }
    }

    /// The outer product (join): the grade `k + g` part of the geometric product,
    /// snapped to `Zero(0)` when it vanishes or when `k + g > 4`.
    pub open spec fn spec_outer(self, rhs: AnyKVector) -> AnyKVector {
        snap(
            grade_part(
                product(self.value(), rhs.value()),
                self.spec_grade() + rhs.spec_grade(),
            ),
        )
    }

    /// The inner product: the grade `|k - g|` part of the geometric product.
    pub open spec fn spec_inner(self, rhs: AnyKVector) -> AnyKVector {
        let k = self.spec_grade();
        let g = rhs.spec_grade();
        grade_part(
            product(self.value(), rhs.value()),
            if k >= g {
                k - g
            } else {
                g - k
            },
        )
    }

    /// The regressive product (meet): the undual of the join of the duals.
    pub open spec fn spec_regressive(self, rhs: AnyKVector) -> AnyKVector {
        self.spec_dual().spec_outer(rhs.spec_dual()).spec_undual()
    }

    pub fn outer(&self, rhs: &AnyKVector) -> (r: AnyKVector)
        requires
            self.within(LIMIT as int),
            rhs.within(LIMIT as int),
        ensures
            r == self.spec_outer(*rhs),
            r.within(16 * LIMIT * LIMIT),
    {
        let m = self.to_multivector().geo(&rhs.to_multivector());
        let part = get_grade_part(&m, self.grade() + rhs.grade());
        if part.is_zero() {
            AnyKVector::Zero(0)
        } else {
            part
        }
    }

    pub fn inner(&self, rhs: &AnyKVector) -> (r: AnyKVector)
        requires
            self.within(LIMIT as int),
            rhs.within(LIMIT as int),
        ensures
            r == self.spec_inner(*rhs),
    {
        let m = self.to_multivector().geo(&rhs.to_multivector());
        let k = self.grade();
        let g = rhs.grade();
        get_grade_part(
            &m,
            if k >= g {
                k - g
            } else {
                g - k
            },
        )
    }

    pub fn regressive(&self, rhs: &AnyKVector) -> (r: AnyKVector)
        requires
            self.within(LIMIT as int),
            rhs.within(LIMIT as int),
        ensures
            r == self.spec_regressive(*rhs),
    {
        let d1 = self.dual();
        let d2 = rhs.dual();
        d1.outer(&d2).undual()
    }
}

} // verus!

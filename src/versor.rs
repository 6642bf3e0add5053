//! The canonical, self-simplifying result of the geometric product.
use vstd::prelude::*;
use crate::scalar::{Scalar, LIMIT, NEG_LIMIT, SMALL, INVERSE_LIMIT, bounded, lemma_negated_factor};
use crate::kvector::{Vector, Bivector, Trivector, Pseudoscalar};
use crate::anykvector::{AnyKVector, grade_part, get_grade_part};
use crate::multivector::{Motor, OddVersor, Multivector, Element, product, lemma_product_parity};

verus! {

/// An element of one parity: an even one (`Even`), an odd one (`Odd`), or
/// one of a single grade (`KVec`).
#[derive(Clone, Copy, Debug, PartialEq, Eq, Structural)]
pub enum Versor {
    Even(Motor),
    Odd(OddVersor),
    KVec(AnyKVector),
}

impl Versor {
    pub open spec fn within(self, bound: int) -> bool {
        match self {
            Versor::Even(m) => m.within(bound),
            Versor::Odd(o) => o.within(bound),
            Versor::KVec(k) => k.within(bound),
        }
    }

    /// The value as a general element.
    pub open spec fn full(self) -> Multivector {
        match self {
            Versor::Even(m) => m.full(),
            Versor::Odd(o) => o.full(),
            Versor::KVec(k) => k.full(),
        }
    }

    /// Whether the value lies in the even sub-algebra.
    pub open spec fn spec_is_even(self) -> bool {
        match self {
            Versor::Even(_) => true,
            Versor::Odd(_) => false,
            Versor::KVec(k) => k.spec_grade() % 2 == 0,
        }
    }

    pub fn is_even(&self) -> (r: bool)
        ensures
            r == self.spec_is_even(),
    {
        match self {
            Versor::Even(_) => true,
            Versor::Odd(_) => false,
            Versor::KVec(k) => k.grade() % 2 == 0,
        }
    }

    pub fn to_multivector(&self) -> (r: Multivector)
        ensures
            r == self.full(),
            forall|b: int| self.within(b) && b >= 0 ==> #[trigger] r.within(b),
    {
        match self {
            Versor::Even(m) => m.to_multivector(),
            Versor::Odd(o) => o.to_multivector(),
            Versor::KVec(k) => k.to_multivector(),
        }
    }

    /// The canonical form of an even element: the scalar when the bivector and
    /// pseudoscalar parts vanish, else the pseudoscalar when everything else
    /// vanishes, else the bivector when the scalar and pseudoscalar vanish,
    /// else the motor itself.
    pub open spec fn spec_from_motor(m: Motor) -> Versor {
        if m.bivector().spec_is_zero() && m.e0123 == 0 {
            Versor::KVec(AnyKVector::Zero(m.s))
        } else if m.s == 0 && m.bivector().spec_is_zero() {
            Versor::KVec(AnyKVector::Four(Pseudoscalar(m.e0123)))
        } else if m.s == 0 && m.e0123 == 0 {
            Versor::KVec(AnyKVector::Two(m.bivector()))
        } else {
            Versor::Even(m)
        }
    }

    /// The canonical form of an odd element: the canonical zero when it
    /// vanishes, else the trivector when the vector part vanishes, else the
    /// vector when the trivector part vanishes, else the odd element itself.
    pub open spec fn spec_from_odd(o: OddVersor) -> Versor {
        if o.vector().spec_is_zero() && o.trivector().spec_is_zero() {
            Versor::KVec(AnyKVector::Zero(0))
        } else if o.vector().spec_is_zero() {
            Versor::KVec(AnyKVector::Three(o.trivector()))
        } else if o.trivector().spec_is_zero() {
            Versor::KVec(AnyKVector::One(o.vector()))
        } else {
            Versor::Odd(o)
        }
    }

    pub fn from_motor(m: Motor) -> (r: Versor)
        ensures
            r == Self::spec_from_motor(m),
            r.full() == m.full(),
            forall|b: int| m.within(b) ==> #[trigger] r.within(b),
            r.spec_is_even(),
    {
        let b = m.get_bivector();
        let b_zero = b.e12 == 0 && b.e31 == 0 && b.e23 == 0 && b.e01 == 0 && b.e02 == 0 && b.e03
            == 0;
        if b_zero && m.e0123 == 0 {
            Versor::KVec(AnyKVector::Zero(m.s))
        } else if m.s == 0 && b_zero {
            Versor::KVec(AnyKVector::Four(Pseudoscalar(m.e0123)))
        } else if m.s == 0 && m.e0123 == 0 {
            Versor::KVec(AnyKVector::Two(b))
        } else {
            Versor::Even(m)
        }
    }

    pub fn from_odd(o: OddVersor) -> (r: Versor)
        ensures
            r == Self::spec_from_odd(o),
            r.full() == o.full(),
            forall|b: int| o.within(b) && b >= 0 ==> #[trigger] r.within(b),
            r.spec_is_even() ==> r == Versor::KVec(AnyKVector::Zero(0)),
    {
        let v = o.get_vector();
        let t = o.get_trivector();
        let v_zero = v.e1 == 0 && v.e2 == 0 && v.e3 == 0 && v.e0 == 0;
        let t_zero = t.e123 == 0 && t.e032 == 0 && t.e013 == 0 && t.e021 == 0;
        if v_zero && t_zero {
            Versor::KVec(AnyKVector::Zero(0))
        } else if v_zero {
            Versor::KVec(AnyKVector::Three(t))
        } else if t_zero {
            Versor::KVec(AnyKVector::One(v))
        } else {
            Versor::Odd(o)
        }
    }

    /// The geometric product, in canonical form.
    pub open spec fn spec_geo(self, rhs: Versor) -> Versor {
        Self::canonical(
            product(self.value(), rhs.value()),
            self.spec_is_even() == rhs.spec_is_even(),
        )
    }

    /// The canonical form of a value of known parity.
    pub open spec fn canonical(e: Element, even: bool) -> Versor {
        if even {
            Self::spec_from_motor(e.even_part())
        } else {
            Self::spec_from_odd(e.odd_part())
        }
    }

    /// The value, one coefficient per basis blade.
    pub open spec fn value(self) -> Element {
        self.full().value()
    }

    /// A value of one parity has a zero part of the other.
    pub proof fn lemma_parity(self)
        ensures
            self.spec_is_even() ==> self.value().odd_is_zero(),
            !self.spec_is_even() ==> self.value().even_is_zero(),
    {
    }


    /// The geometric product `self * rhs`, in canonical form.
    pub fn geo(&self, rhs: &Versor) -> (r: Versor)
        requires
            self.within(LIMIT as int),
            rhs.within(LIMIT as int),
        ensures
            r == self.spec_geo(*rhs),
            r.value() == product(self.value(), rhs.value()),
            self.spec_is_even() == rhs.spec_is_even() ==> r.spec_is_even(),
            self.spec_is_even() != rhs.spec_is_even() && r.spec_is_even() ==> r == Versor::KVec(
                AnyKVector::Zero(0),
            ),
            self.within(SMALL as int) && rhs.within(SMALL as int) ==> r.within(
                16 * SMALL * SMALL,
            ),
    {
        proof {
            self.lemma_parity();
            rhs.lemma_parity();
            lemma_product_parity(self.value(), rhs.value());
        }
        let p = self.to_multivector().geo(&rhs.to_multivector());
        if self.is_even() == rhs.is_even() {
            Self::from_motor(p.even)
        } else {
            Self::from_odd(p.odd)
        }
    }
    pub open spec fn spec_reverse(self) -> Versor {
        match self {
            Versor::Even(m) => Versor::Even(m.spec_reverse()),
            Versor::Odd(o) => Versor::Odd(o.spec_reverse()),
            Versor::KVec(k) => Versor::KVec(k.spec_reverse()),
        }
    }

    /// The reverse of the active variant.
    pub fn reverse(&self) -> (r: Versor)
        requires
            self.within(NEG_LIMIT as int),
        ensures
            r == self.spec_reverse(),
    {
        match self {
            Versor::Even(m) => Versor::Even(m.reverse()),
            Versor::Odd(o) => Versor::Odd(o.reverse()),
            Versor::KVec(k) => Versor::KVec(k.reverse()),
        }
    }

    pub open spec fn spec_grade_involution(self) -> Versor {
        match self {
            Versor::Even(m) => Versor::Even(m.spec_grade_involution()),
            Versor::Odd(o) => Versor::Odd(o.spec_grade_involution()),
            Versor::KVec(k) => Versor::KVec(k.spec_grade_involution()),
        }
    }

    /// The grade involution of the active variant.
    pub fn grade_involution(&self) -> (r: Versor)
        requires
            self.within(NEG_LIMIT as int),
        ensures
            r == self.spec_grade_involution(),
    {
        match self {
            Versor::Even(m) => Versor::Even(m.grade_involution()),
            Versor::Odd(o) => Versor::Odd(o.grade_involution()),
            Versor::KVec(k) => Versor::KVec(k.grade_involution()),
        }
    }

    /// The coefficient of the blade named by the bit mask `basis`.
    pub fn e(&self, basis: u8) -> (r: Scalar)
        ensures
            r == self.value().coefficient(basis as int),
    {
        self.to_multivector().e(basis)
    }

    /// The grade-`g` part.
    pub fn grade(&self, g: u8) -> (r: AnyKVector)
        ensures
            r == grade_part(self.value(), g as int),
    {
        get_grade_part(&self.to_multivector(), g)
    }

    /// The highest grade with a nonzero part; zero for the zero element.
    pub open spec fn spec_highest_grade(self) -> int {
        match self {
            Versor::Even(m) => if m.e0123 != 0 {
                4
            } else if !m.bivector().spec_is_zero() {
                2
            } else {
                0
            },
            Versor::Odd(o) => if !o.trivector().spec_is_zero() {
                3
            } else if !o.vector().spec_is_zero() {
                1
            } else {
                0
            },
            Versor::KVec(k) => k.spec_grade(),
        }
    }

    pub fn highest_grade(&self) -> (r: u8)
        ensures
            r == self.spec_highest_grade(),
    {
        match self {
            Versor::Even(m) => if m.e0123 != 0 {
                4
            } else if !(m.e12 == 0 && m.e31 == 0 && m.e23 == 0 && m.e01 == 0 && m.e02 == 0 && m.e03
                == 0) {
                2
            } else {
                0
            },
            Versor::Odd(o) => if !(o.e123 == 0 && o.e032 == 0 && o.e013 == 0 && o.e021 == 0) {
                3
            } else if !(o.e1 == 0 && o.e2 == 0 && o.e3 == 0 && o.e0 == 0) {
                1
            } else {
                0
            },
            Versor::KVec(k) => k.grade(),
        }
    }

    /// Every coefficient is zero.
    pub open spec fn spec_is_zero(self) -> bool {
        self.value().even_is_zero() && self.value().odd_is_zero()
    }

    pub fn is_zero(&self) -> (r: bool)
        ensures
            r == self.spec_is_zero(),
    {
        match self {
            Versor::Even(m) => m.s == 0 && m.e12 == 0 && m.e31 == 0 && m.e23 == 0 && m.e01 == 0
                && m.e02 == 0 && m.e03 == 0 && m.e0123 == 0,
            Versor::Odd(o) => o.e1 == 0 && o.e2 == 0 && o.e3 == 0 && o.e0 == 0 && o.e123 == 0
                && o.e032 == 0 && o.e013 == 0 && o.e021 == 0,
            Versor::KVec(k) => k.is_zero(),
        }
    }

    /// Whether the element lies at infinity.
    pub open spec fn spec_is_ideal(self) -> bool {
        match self {
            Versor::Even(m) => m.spec_is_ideal(),
            Versor::Odd(o) => o.spec_is_ideal(),
            Versor::KVec(k) => k.spec_is_ideal(),
        }
    }

    pub fn is_ideal(&self) -> (r: bool)
        ensures
            r == self.spec_is_ideal(),
    {
        match self {
            Versor::Even(m) => m.is_ideal(),
            Versor::Odd(o) => o.is_ideal(),
            Versor::KVec(k) => k.is_ideal(),
        }
    }

    pub open spec fn spec_neg(self) -> Versor {
        match self {
            Versor::Even(m) => Versor::Even(m.spec_neg()),
            Versor::Odd(o) => Versor::Odd(o.spec_neg()),
            Versor::KVec(k) => Versor::KVec(k.spec_neg()),
        }
    }

    /// The negation of the active variant.
    pub fn neg(&self) -> (r: Versor)
        requires
            self.within(NEG_LIMIT as int),
        ensures
            r == self.spec_neg(),
    {
        match self {
            Versor::Even(m) => Versor::Even(m.neg()),
            Versor::Odd(o) => Versor::Odd(o.neg()),
            Versor::KVec(k) => Versor::KVec(k.neg()),
        }
    }

    pub open spec fn spec_scale(self, s: Scalar) -> Versor {
        match self {
            Versor::Even(m) => Versor::Even(m.spec_scale(s)),
            Versor::Odd(o) => Versor::Odd(o.spec_scale(s)),
            Versor::KVec(k) => Versor::KVec(k.spec_scale(s)),
        }
    }

    /// The active variant multiplied by the scalar `s`.
    pub fn scale(&self, s: Scalar) -> (r: Versor)
        requires
            self.within(LIMIT as int),
            bounded(s as int, LIMIT as int),
        ensures
            r == self.spec_scale(s),
    {
        match self {
            Versor::Even(m) => Versor::Even(m.scale(s)),
            Versor::Odd(o) => Versor::Odd(o.scale(s)),
            Versor::KVec(k) => Versor::KVec(k.scale(s)),
        }
    }

    /// The dual, grade by grade, in canonical form.
    pub open spec fn spec_dual(self) -> Versor {
        match self {
            Versor::Even(m) => Self::spec_from_motor(m.spec_dual()),
            Versor::Odd(o) => Self::spec_from_odd(o.spec_dual()),
            Versor::KVec(k) => Versor::KVec(k.spec_dual()),
        }
    }

    /// The undual, grade by grade, in canonical form.
    pub open spec fn spec_undual(self) -> Versor {
        match self {
            Versor::Even(m) => Self::spec_from_motor(m.spec_dual()),
            Versor::Odd(o) => Self::spec_from_odd(o.spec_undual()),
            Versor::KVec(k) => Versor::KVec(k.spec_undual()),
        }
    }

    pub fn dual(&self) -> (r: Versor)
        requires
            self.within(NEG_LIMIT as int),
        ensures
            r == self.spec_dual(),
    {
        match self {
            Versor::Even(m) => Self::from_motor(m.dual()),
            Versor::Odd(o) => Self::from_odd(o.dual()),
            Versor::KVec(k) => Versor::KVec(k.dual()),
        }
    }

    pub fn undual(&self) -> (r: Versor)
        requires
            self.within(NEG_LIMIT as int),
        ensures
            r == self.spec_undual(),
    {
        match self {
            Versor::Even(m) => Self::from_motor(m.dual()),
            Versor::Odd(o) => Self::from_odd(o.undual()),
            Versor::KVec(k) => Versor::KVec(k.undual()),
        }
    }

    /// The scalar held by a value that the caller knows to be one; a value of
    /// any other shape is a grade mismatch, which callers may not pass.
    pub fn assert_scalar(&self) -> (r: Scalar)
        requires
            self matches Versor::KVec(AnyKVector::Zero(_)),
        ensures
            *self == Versor::KVec(AnyKVector::Zero(r)),
    {
        match self {
            Versor::KVec(AnyKVector::Zero(s)) => *s,
            _ => {
                assert(false);
                0
            },
        }
    }

    /// The vector held by a value that the caller knows to be one; a value of
    /// any other shape is a grade mismatch, which callers may not pass.
    pub fn assert_vector(&self) -> (r: Vector)
        requires
            self matches Versor::KVec(AnyKVector::One(_)),
        ensures
            *self == Versor::KVec(AnyKVector::One(r)),
    {
        match self {
            Versor::KVec(AnyKVector::One(v)) => *v,
            _ => {
                assert(false);
                Vector::zero()
            },
        }
    }

    /// The bivector held by a value that the caller knows to be one; a value of
    /// any other shape is a grade mismatch, which callers may not pass.
    pub fn assert_bivector(&self) -> (r: Bivector)
        requires
            self matches Versor::KVec(AnyKVector::Two(_)),
        ensures
            *self == Versor::KVec(AnyKVector::Two(r)),
    {
        match self {
            Versor::KVec(AnyKVector::Two(b)) => *b,
            _ => {
                assert(false);
                Bivector::zero()
            },
        }
    }

    /// The trivector held by a value that the caller knows to be one; a value of
    /// any other shape is a grade mismatch, which callers may not pass.
    pub fn assert_trivector(&self) -> (r: Trivector)
        requires
            self matches Versor::KVec(AnyKVector::Three(_)),
        ensures
            *self == Versor::KVec(AnyKVector::Three(r)),
    {
        match self {
            Versor::KVec(AnyKVector::Three(t)) => *t,
            _ => {
                assert(false);
                Trivector::zero()
            },
        }
    }

    /// The pseudoscalar held by a value that the caller knows to be one; a value of
    /// any other shape is a grade mismatch, which callers may not pass.
    pub fn assert_pseudoscalar(&self) -> (r: Pseudoscalar)
        requires
            self matches Versor::KVec(AnyKVector::Four(_)),
        ensures
            *self == Versor::KVec(AnyKVector::Four(r)),
    {
        match self {
            Versor::KVec(AnyKVector::Four(p)) => *p,
            _ => {
                assert(false);
                Pseudoscalar(0)
            },
        }
    }

    /// The scalar, when the value is one.
    pub fn as_scalar(&self) -> (r: Option<Scalar>)
        ensures
            r == (match *self {
                Versor::KVec(AnyKVector::Zero(s)) => Some(s),
                _ => None,
            }),
    {
        match self {
            Versor::KVec(AnyKVector::Zero(s)) => Some(*s),
            _ => None,
        }
    }

    /// The vector, when the value is one.
    pub fn as_vector(&self) -> (r: Option<Vector>)
        ensures
            r == (match *self {
                Versor::KVec(AnyKVector::One(v)) => Some(v),
                _ => None,
            }),
    {
        match self {
            Versor::KVec(AnyKVector::One(v)) => Some(*v),
            _ => None,
        }
    }

    /// The bivector, when the value is one.
    pub fn as_bivector(&self) -> (r: Option<Bivector>)
        ensures
            r == (match *self {
                Versor::KVec(AnyKVector::Two(b)) => Some(b),
                _ => None,
            }),
    {
        match self {
            Versor::KVec(AnyKVector::Two(b)) => Some(*b),
            _ => None,
        }
    }

    /// The trivector, when the value is one.
    pub fn as_trivector(&self) -> (r: Option<Trivector>)
        ensures
            r == (match *self {
                Versor::KVec(AnyKVector::Three(t)) => Some(t),
                _ => None,
            }),
    {
        match self {
            Versor::KVec(AnyKVector::Three(t)) => Some(*t),
            _ => None,
        }
    }

    /// The pseudoscalar, when the value is one.
    pub fn as_pseudoscalar(&self) -> (r: Option<Pseudoscalar>)
        ensures
            r == (match *self {
                Versor::KVec(AnyKVector::Four(p)) => Some(p),
                _ => None,
            }),
    {
        match self {
            Versor::KVec(AnyKVector::Four(p)) => Some(*p),
            _ => None,
        }
    }
}

impl AnyKVector {
    /// The geometric product of two k-vectors, in canonical form.
    pub fn geo(&self, rhs: &AnyKVector) -> (r: Versor)
        requires
            self.within(LIMIT as int),
            rhs.within(LIMIT as int),
        ensures
            r == Versor::KVec(*self).spec_geo(Versor::KVec(*rhs)),
            r.value() == product(self.value(), rhs.value()),
    {
        Versor::KVec(*self).geo(&Versor::KVec(*rhs))
    }
}

impl Motor {
    /// The motor that translates by the direction `d` (as `Trivector::direction`
    /// builds it), taken at twice unit scale so that it stays integral:
    /// `2 + d.e032 e01 + d.e013 e02 + d.e021 e03`, which is `2 - e0 * dual(d)`.
    /// Sandwiching with it multiplies the result by four.
    pub open spec fn spec_translation(d: Trivector) -> Motor {
        Motor { s: 2, e12: 0, e31: 0, e23: 0, e01: d.e032, e02: d.e013, e03: d.e021, e0123: 0 }
    }

    pub fn translation(d: &Trivector) -> (r: Motor)
        ensures
            r == Self::spec_translation(*d),
    {
        Motor { s: 2, e12: 0, e31: 0, e23: 0, e01: d.e032, e02: d.e013, e03: d.e021, e0123: 0 }
    }

    /// The sandwich `reverse(m) * x * m`, each product in canonical form.
    pub open spec fn spec_sandwich(self, x: AnyKVector) -> Versor {
        Versor::canonical(
            product(product(self.spec_reverse().full().value(), x.value()), self.full().value()),
            x.spec_grade() % 2 == 0,
        )
    }

    /// Applies the motor to `x`.
    pub fn sandwich(&self, x: &AnyKVector) -> (r: Versor)
        requires
            self.within(SMALL as int),
            x.within(SMALL as int),
        ensures
            r == self.spec_sandwich(*x),
    {
        let left = Versor::Even(self.reverse()).geo(&Versor::KVec(*x));
        let r = left.geo(&Versor::Even(*self));
        proof {
            let p = product(left.value(), self.full().value());
            lemma_product_parity(left.value(), self.full().value());
            assert(p.odd_is_zero() ==> Versor::spec_from_odd(p.odd_part()) == Versor::KVec(
                AnyKVector::Zero(0),
            ));
            assert(p.even_is_zero() ==> Versor::spec_from_motor(p.even_part()) == Versor::KVec(
                AnyKVector::Zero(0),
            ));
        }
        r
    }
}

/// `s - p e0123` for `q == s + p e0123`: the factor that clears the
/// pseudoscalar from the norm of an element of one parity.
pub open spec fn norm_conjugate(q: Element) -> Element {
    Element {
        s: q.s,
        e12: 0,
        e31: 0,
        e23: 0,
        e01: 0,
        e02: 0,
        e03: 0,
        e0123: -q.e0123,
        e1: 0,
        e2: 0,
        e3: 0,
        e0: 0,
        e123: 0,
        e032: 0,
        e013: 0,
        e021: 0,
    }
}

/// The scalar part of `m * reverse(m)` is the sum of squares of the Euclidean part.
proof fn lemma_motor_norm(m: Motor)
    requires
        m.within(NEG_LIMIT as int),
    ensures
        product(m.full().value(), m.spec_reverse().full().value()).s == m.s * m.s + m.e12 * m.e12
            + m.e31 * m.e31 + m.e23 * m.e23,
{
    reveal(product);
    let r = m.spec_reverse();
    lemma_negated_factor(m.e12 as int, m.e12 as int, r.e12 as int);
    lemma_negated_factor(m.e31 as int, m.e31 as int, r.e31 as int);
    lemma_negated_factor(m.e23 as int, m.e23 as int, r.e23 as int);
}

/// The scalar part of `o * reverse(o)` is the sum of squares of the Euclidean part.
proof fn lemma_odd_norm(o: OddVersor)
    requires
        o.within(NEG_LIMIT as int),
    ensures
        product(o.full().value(), o.spec_reverse().full().value()).s == o.e1 * o.e1 + o.e2 * o.e2
            + o.e3 * o.e3 + o.e123 * o.e123,
{
    reveal(product);
    let r = o.spec_reverse();
    lemma_negated_factor(o.e123 as int, o.e123 as int, r.e123 as int);
}

/// A sum of four squares is positive unless every term vanishes.
proof fn lemma_four_squares(a: int, b: int, c: int, d: int)
    ensures
        a * a + b * b + c * c + d * d >= 0,
        a * a + b * b + c * c + d * d == 0 <==> (a == 0 && b == 0 && c == 0 && d == 0),
{
    assert(a * a >= 0 && b * b >= 0 && c * c >= 0 && d * d >= 0) by (nonlinear_arith);
    assert(a != 0 ==> a * a > 0) by (nonlinear_arith);
    assert(b != 0 ==> b * b > 0) by (nonlinear_arith);
    assert(c != 0 ==> c * c > 0) by (nonlinear_arith);
    assert(d != 0 ==> d * d > 0) by (nonlinear_arith);
}

impl Motor {
    /// The inverse as a numerator and a positive denominator, `m⁻¹ == n / d`.
    /// With `m * reverse(m) == s + p e0123`, the numerator is
    /// `reverse(m) * (s - p e0123)` and the denominator `s * s`.
    /// A motor at infinity has none.
    pub fn inverse(&self) -> (r: Option<(Motor, Scalar)>)
        requires
            self.within(INVERSE_LIMIT as int),
        ensures
            r is None <==> self.spec_is_ideal(),
            r matches Some((n, d)) ==> {
                let q = product(self.full().value(), self.spec_reverse().full().value());
                &&& n.full().value() == product(
                    self.spec_reverse().full().value(),
                    norm_conjugate(q),
                )
                &&& d == q.s * q.s
                &&& d > 0
            },
    {
        proof {
            lemma_motor_norm(*self);
            lemma_four_squares(self.s as int, self.e12 as int, self.e31 as int, self.e23 as int);
        }
        if self.is_ideal() {
            return None;
        }
        let rev = self.reverse();
        let q = self.to_multivector().geo(&rev.to_multivector());
        let k = Motor {
            s: q.even.s,
            e12: 0,
            e31: 0,
            e23: 0,
            e01: 0,
            e02: 0,
            e03: 0,
            e0123: -q.even.e0123,
        };
        let n = rev.to_multivector().geo(&k.to_multivector());
        proof {
            lemma_product_parity(rev.full().value(), k.full().value());
            assert(k.full().value() == norm_conjugate(q.value()));
            assert(q.even.s * q.even.s > 0) by (nonlinear_arith)
                requires
                    q.even.s > 0,
            ;
        }
        Some((n.even, crate::scalar::times(q.even.s, q.even.s)))
    }
}

impl OddVersor {
    /// The inverse as a numerator and a positive denominator, `o⁻¹ == n / d`.
    /// With `o * reverse(o) == s + p e0123`, the numerator is
    /// `reverse(o) * (s - p e0123)` and the denominator `s * s`.
    /// An odd element at infinity has none.
    pub fn inverse(&self) -> (r: Option<(OddVersor, Scalar)>)
        requires
            self.within(INVERSE_LIMIT as int),
        ensures
            r is None <==> self.spec_is_ideal(),
            r matches Some((n, d)) ==> {
                let q = product(self.full().value(), self.spec_reverse().full().value());
                &&& n.full().value() == product(
                    self.spec_reverse().full().value(),
                    norm_conjugate(q),
                )
                &&& d == q.s * q.s
                &&& d > 0
            },
    {
        proof {
            lemma_odd_norm(*self);
            lemma_four_squares(self.e1 as int, self.e2 as int, self.e3 as int, self.e123 as int);
        }
        if self.is_ideal() {
            return None;
        }
        let rev = self.reverse();
        let q = self.to_multivector().geo(&rev.to_multivector());
        let k = Motor {
            s: q.even.s,
            e12: 0,
            e31: 0,
            e23: 0,
            e01: 0,
            e02: 0,
            e03: 0,
            e0123: -q.even.e0123,
        };
        let n = rev.to_multivector().geo(&k.to_multivector());
        proof {
            lemma_product_parity(rev.full().value(), k.full().value());
            assert(k.full().value() == norm_conjugate(q.value()));
            assert(q.even.s * q.even.s > 0) by (nonlinear_arith)
                requires
                    q.even.s > 0,
            ;
        }
        Some((n.odd, crate::scalar::times(q.even.s, q.even.s)))
    }
}

} // verus!

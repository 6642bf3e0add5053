//! Laws that tie the operations together, proved from their contracts.
use vstd::prelude::*;
use crate::scalar::{Scalar, LIMIT, NEG_LIMIT, bounded, lemma_mul_bounded, lemma_negated_factor};
use crate::kvector::{Vector, Bivector, Trivector};
use crate::anykvector::{AnyKVector, snap};
use crate::multivector::{Motor, Element, product, lemma_product_parity, lemma_product_one};
use crate::versor::Versor;

verus! {

/// On grades 1, 2 and 3 the undual undoes the dual, and the dual undoes the undual.
pub proof fn lemma_dual_round_trip(x: AnyKVector)
    requires
        1 <= x.spec_grade() <= 3,
        x.within(NEG_LIMIT as int),
    ensures
        x.spec_dual().spec_undual() == x,
        x.spec_undual().spec_dual() == x,
{
}

/// Reversing twice, or applying the grade involution twice, gives back the
/// element, whatever its grade or shape.
pub proof fn lemma_reverse_involutive(x: Versor)
    requires
        x.within(NEG_LIMIT as int),
    ensures
        x.spec_reverse().spec_reverse() == x,
        x.spec_grade_involution().spec_grade_involution() == x,
{
}

/// The join of grades `k` and `g` is the canonical zero when `k + g > 4`.
pub proof fn lemma_outer_beyond_top_grade(a: AnyKVector, b: AnyKVector)
    requires
        a.spec_grade() + b.spec_grade() > 4,
    ensures
        a.spec_outer(b) == AnyKVector::Zero(0),
{
}

/// The meet of grades `k` and `g` is the canonical zero when `(4 - k) + (4 - g) > 4`.
pub proof fn lemma_regressive_beyond_top_grade(a: AnyKVector, b: AnyKVector)
    requires
        (4 - a.spec_grade()) + (4 - b.spec_grade()) > 4,
    ensures
        a.spec_regressive(b) == AnyKVector::Zero(0),
{
    let da = a.spec_dual();
    let db = b.spec_dual();
    lemma_product_parity(da.value(), db.value());
    if da.spec_grade() + db.spec_grade() <= 4 {
        // Only a zero scalar keeps its grade under the dual; its join vanishes.
        assert(da == AnyKVector::Zero(0) || db == AnyKVector::Zero(0));
        assert(da.value().even_is_zero() && da.value().odd_is_zero() || db.value().even_is_zero()
            && db.value().odd_is_zero());
        lemma_product_parity(db.value(), da.value());
        assert(da.spec_outer(db).spec_is_zero());
    }
}

/// A motor whose bivector and pseudoscalar parts vanish is canonically its scalar.
pub proof fn lemma_motor_collapses_to_scalar(m: Motor)
    requires
        m.bivector().spec_is_zero(),
        m.e0123 == 0,
    ensures
        Versor::spec_from_motor(m) == Versor::KVec(AnyKVector::Zero(m.s)),
{
}

/// Sandwiching a trivector with the translator built from any trivector `d`,
/// coefficient by coefficient.
proof fn lemma_translator_on_trivector(p: Trivector, d: Trivector)
    requires
        !p.spec_is_zero(),
        p.within(LIMIT as int),
        d.within(LIMIT as int),
    ensures
        Motor::spec_translation(d).spec_sandwich(AnyKVector::Three(p)) == Versor::KVec(
            AnyKVector::Three(
                Trivector {
                    e123: (4 * p.e123) as Scalar,
                    e032: (4 * (p.e032 + p.e123 * d.e032)) as Scalar,
                    e013: (4 * (p.e013 + p.e123 * d.e013)) as Scalar,
                    e021: (4 * (p.e021 + p.e123 * d.e021)) as Scalar,
                },
            ),
        ),
{
    reveal(product);
    let m = Motor::spec_translation(d);
    let (w, x, y, z) = (p.e123 as int, p.e032 as int, p.e013 as int, p.e021 as int);
    let (dx, dy, dz) = (d.e032 as int, d.e013 as int, d.e021 as int);
    let rv = m.spec_reverse().full().value();
    let pv = AnyKVector::Three(p).value();
    assert(rv.odd_is_zero() && rv.s == 2 && rv.e12 == 0 && rv.e31 == 0 && rv.e23 == 0);
    assert(rv.e01 == -dx && rv.e02 == -dy && rv.e03 == -dz && rv.e0123 == 0);
    assert(pv.even_is_zero() && pv.e1 == 0 && pv.e2 == 0 && pv.e3 == 0 && pv.e0 == 0);
    assert(pv.e123 == w && pv.e032 == x && pv.e013 == y && pv.e021 == z);
    assert(rv.e01 * pv.e123 == -(dx * w) && rv.e02 * pv.e123 == -(dy * w) && rv.e03 * pv.e123
        == -(dz * w)) by (nonlinear_arith)
        requires
            rv.e01 == -dx && rv.e02 == -dy && rv.e03 == -dz && pv.e123 == w,
    ;
    let half = product(rv, pv);
    assert(half.even_is_zero() && half.e1 == 0 && half.e2 == 0 && half.e3 == 0 && half.e0 == 0);
    assert(half.e123 == 2 * w && half.e032 == dx * w + 2 * x && half.e013 == dy * w + 2 * y
        && half.e021 == dz * w + 2 * z);
    let mv = m.full().value();
    assert(mv.odd_is_zero() && mv.s == 2 && mv.e12 == 0 && mv.e31 == 0 && mv.e23 == 0);
    assert(mv.e01 == dx && mv.e02 == dy && mv.e03 == dz && mv.e0123 == 0);
    assert(half.e123 * mv.e01 == 2 * (w * dx) && half.e123 * mv.e02 == 2 * (w * dy)
        && half.e123 * mv.e03 == 2 * (w * dz)) by (nonlinear_arith)
        requires
            half.e123 == 2 * w && mv.e01 == dx && mv.e02 == dy && mv.e03 == dz,
    ;
    assert(dx * w == w * dx && dy * w == w * dy && dz * w == w * dz) by (nonlinear_arith);
    let whole = product(half, mv);
    assert(whole.odd_part().vector().spec_is_zero());
    assert(whole.e123 == 4 * w && whole.e032 == 4 * (x + w * dx) && whole.e013 == 4 * (y + w
        * dy) && whole.e021 == 4 * (z + w * dz));
    lemma_mul_bounded(p.e123 as int, d.e032 as int, LIMIT as int);
    lemma_mul_bounded(p.e123 as int, d.e013 as int, LIMIT as int);
    lemma_mul_bounded(p.e123 as int, d.e021 as int, LIMIT as int);
}

/// A plane times its reverse is the square of its Euclidean norm: with
/// `Vector::inverse`, `v * (n / d) == 1` for every plane not at infinity.
pub proof fn lemma_vector_times_inverse(v: Vector)
    ensures
        Versor::KVec(AnyKVector::One(v)).spec_geo(Versor::KVec(AnyKVector::One(v.spec_reverse())))
            == Versor::KVec(AnyKVector::Zero(v.spec_eucl_norm_squared() as Scalar)),
{
    reveal(product);
}

/// The product of two planes is the sum of their inner and outer products.
pub proof fn lemma_vector_product_splits(a: Vector, b: Vector)
    ensures
        Versor::KVec(AnyKVector::One(a)).spec_geo(Versor::KVec(AnyKVector::One(b))).full()
            == Versor::KVec(AnyKVector::One(a).spec_inner(AnyKVector::One(b))).full().spec_add(
            Versor::KVec(AnyKVector::One(a).spec_outer(AnyKVector::One(b))).full(),
        ),
{
    reveal(product);
    let va = AnyKVector::One(a).value();
    let vb = AnyKVector::One(b).value();
    assert(va.even_is_zero() && va.e123 == 0 && va.e032 == 0 && va.e013 == 0 && va.e021 == 0);
    assert(vb.even_is_zero() && vb.e123 == 0 && vb.e032 == 0 && vb.e013 == 0 && vb.e021 == 0);
    let p = product(va, vb);
    assert(p.e0123 == 0);
    assert(p.odd_is_zero());
}

/// The inner product of two points of unit weight is `-1`, wherever they lie.
pub proof fn lemma_point_inner_point(p: Trivector, q: Trivector)
    requires
        p.e123 == 1,
        q.e123 == 1,
    ensures
        AnyKVector::Three(p).spec_inner(AnyKVector::Three(q)) == AnyKVector::Zero(-1 as Scalar),
{
    reveal(product);
}

/// The identity motor leaves every k-vector unchanged, up to the canonical zero.
pub proof fn lemma_identity_sandwich(x: AnyKVector)
    requires
        x.within(LIMIT as int),
    ensures
        Motor::spec_identity().spec_sandwich(x) == Versor::KVec(snap(x)),
{
    let one = Motor::spec_identity();
    assert(one.spec_reverse() == one);
    lemma_product_one(x.value());
    lemma_product_one(product(one.full().value(), x.value()));
}

/// Sign, scale and order of a product of two factors.
proof fn lemma_monomial(p: int, q: int)
    ensures
        (-p) * q == -(q * p),
        (2 * q) * p == 2 * (q * p),
        p * q == q * p,
{
    assert((-p) * q == -(q * p)) by (nonlinear_arith);
    assert((2 * q) * p == 2 * (q * p)) by (nonlinear_arith);
    assert(p * q == q * p) by (nonlinear_arith);
}

/// The value of `2 + x e01 + y e02 + z e03`, a translator at twice unit scale.
pub open spec fn translator_value(x: int, y: int, z: int) -> Element {
    Element {
        s: 2,
        e12: 0,
        e31: 0,
        e23: 0,
        e01: x,
        e02: y,
        e03: z,
        e0123: 0,
        e1: 0,
        e2: 0,
        e3: 0,
        e0: 0,
        e123: 0,
        e032: 0,
        e013: 0,
        e021: 0,
    }
}

/// A translator times any value, written out.
proof fn lemma_translator_left(x: int, y: int, z: int, h: Element)
    ensures
        product(translator_value(x, y, z), h) == (Element {
                s: 2 * h.s,
                e12: 2 * h.e12,
                e31: 2 * h.e31,
                e23: 2 * h.e23,
                e01: 2 * h.e01 + x * h.s - y * h.e12 + z * h.e31,
                e02: 2 * h.e02 + x * h.e12 + y * h.s - z * h.e23,
                e03: 2 * h.e03 - x * h.e31 + y * h.e23 + z * h.s,
                e0123: 2 * h.e0123 + x * h.e23 + y * h.e31 + z * h.e12,
                e1: 2 * h.e1,
                e2: 2 * h.e2,
                e3: 2 * h.e3,
                e0: 2 * h.e0 + x * h.e1 + y * h.e2 + z * h.e3,
                e123: 2 * h.e123,
                e032: 2 * h.e032 - x * h.e123 - y * h.e3 + z * h.e2,
                e013: 2 * h.e013 + x * h.e3 - y * h.e123 - z * h.e1,
                e021: 2 * h.e021 - x * h.e2 + y * h.e1 - z * h.e123,
        }),
{
    reveal(product);
}

/// Any value times a translator, written out.
proof fn lemma_translator_right(h: Element, x: int, y: int, z: int)
    ensures
        product(h, translator_value(x, y, z)) == (Element {
                s: 2 * h.s,
                e12: 2 * h.e12,
                e31: 2 * h.e31,
                e23: 2 * h.e23,
                e01: h.s * x + h.e12 * y - h.e31 * z + 2 * h.e01,
                e02: h.s * y - h.e12 * x + h.e23 * z + 2 * h.e02,
                e03: h.s * z + h.e31 * x - h.e23 * y + 2 * h.e03,
                e0123: h.e12 * z + h.e31 * y + h.e23 * x + 2 * h.e0123,
                e1: 2 * h.e1,
                e2: 2 * h.e2,
                e3: 2 * h.e3,
                e0: -(h.e1 * x) - h.e2 * y - h.e3 * z + 2 * h.e0,
                e123: 2 * h.e123,
                e032: h.e2 * z - h.e3 * y + h.e123 * x + 2 * h.e032,
                e013: -(h.e1 * z) + h.e3 * x + h.e123 * y + 2 * h.e013,
                e021: h.e1 * y - h.e2 * x + h.e123 * z + 2 * h.e021,
        }),
{
    reveal(product);
}

/// The translation motor and its reverse as values.
proof fn lemma_translation_value(d: Trivector)
    requires
        d.within(LIMIT as int),
    ensures
        Motor::spec_translation(d).full().value() == translator_value(
            d.e032 as int,
            d.e013 as int,
            d.e021 as int,
        ),
        Motor::spec_translation(d).spec_reverse().full().value() == translator_value(
            -d.e032,
            -d.e013,
            -d.e021,
        ),
{
}

/// Sandwiching a vector with the translator built from any trivector `d`,
/// coefficient by coefficient.
proof fn lemma_translator_on_vector(v: Vector, d: Trivector)
    requires
        !v.spec_is_zero(),
        v.within(LIMIT as int),
        d.within(LIMIT as int),
    ensures
        Motor::spec_translation(d).spec_sandwich(AnyKVector::One(v)) == Versor::KVec(
            AnyKVector::One(
                Vector {
                    e1: (4 * v.e1) as Scalar,
                    e2: (4 * v.e2) as Scalar,
                    e3: (4 * v.e3) as Scalar,
                    e0: (4 * (v.e0 - (v.e1 * d.e032 + v.e2 * d.e013 + v.e3 * d.e021))) as Scalar,
                },
            ),
        ),
{
    let (dx, dy, dz) = (d.e032 as int, d.e013 as int, d.e021 as int);
    lemma_translation_value(d);
    let x = AnyKVector::One(v).value();
    lemma_translator_left(-dx, -dy, -dz, x);
    let half = product(translator_value(-dx, -dy, -dz), x);
    lemma_translator_right(half, dx, dy, dz);
    let whole = product(half, translator_value(dx, dy, dz));
    let (a, b, c, w) = (v.e1 as int, v.e2 as int, v.e3 as int, v.e0 as int);
    assert(half.e1 == 2 * a && half.e2 == 2 * b && half.e3 == 2 * c && half.e123 == 0);
    assert(half.e0 == 2 * w + (-dx) * a + (-dy) * b + (-dz) * c);
    assert(half.e032 == -((-dy) * c) + (-dz) * b && half.e013 == (-dx) * c - (-dz) * a
        && half.e021 == -((-dx) * b) + (-dy) * a);
    lemma_monomial(dx, a);
    lemma_monomial(dy, b);
    lemma_monomial(dz, c);
    lemma_monomial(dx, b);
    lemma_monomial(dx, c);
    lemma_monomial(dy, a);
    lemma_monomial(dy, c);
    lemma_monomial(dz, a);
    lemma_monomial(dz, b);
    assert(half.e1 * dx == 2 * (a * dx) && half.e2 * dy == 2 * (b * dy) && half.e3 * dz == 2 * (c
        * dz));
    assert(half.e1 * dy == 2 * (a * dy) && half.e1 * dz == 2 * (a * dz));
    assert(half.e2 * dx == 2 * (b * dx) && half.e2 * dz == 2 * (b * dz));
    assert(half.e3 * dx == 2 * (c * dx) && half.e3 * dy == 2 * (c * dy));
    assert(half.e123 * dx == 0 && half.e123 * dy == 0 && half.e123 * dz == 0);
    assert(whole.e0 == 4 * (w - (a * dx + b * dy + c * dz)));
    assert(whole.e032 == 0 && whole.e013 == 0 && whole.e021 == 0 && whole.e123 == 0);
    assert(a * dx == v.e1 * d.e032 && b * dy == v.e2 * d.e013 && c * dz == v.e3 * d.e021);
}

/// Sandwiching a bivector with the translator built from any trivector `d`,
/// coefficient by coefficient.
proof fn lemma_translator_on_bivector(l: Bivector, d: Trivector)
    requires
        !l.spec_is_zero(),
        l.within(LIMIT as int),
        d.within(LIMIT as int),
    ensures
        Motor::spec_translation(d).spec_sandwich(AnyKVector::Two(l)) == Versor::KVec(
            AnyKVector::Two(
                Bivector {
                    e12: (4 * l.e12) as Scalar,
                    e31: (4 * l.e31) as Scalar,
                    e23: (4 * l.e23) as Scalar,
                    e01: (4 * (l.e01 + l.e12 * d.e013 - l.e31 * d.e021)) as Scalar,
                    e02: (4 * (l.e02 - l.e12 * d.e032 + l.e23 * d.e021)) as Scalar,
                    e03: (4 * (l.e03 - l.e23 * d.e013 + l.e31 * d.e032)) as Scalar,
                },
            ),
        ),
{
    let (dx, dy, dz) = (d.e032 as int, d.e013 as int, d.e021 as int);
    lemma_translation_value(d);
    let x = AnyKVector::Two(l).value();
    lemma_translator_left(-dx, -dy, -dz, x);
    let half = product(translator_value(-dx, -dy, -dz), x);
    lemma_translator_right(half, dx, dy, dz);
    let whole = product(half, translator_value(dx, dy, dz));
    let (b12, b31, b23) = (l.e12 as int, l.e31 as int, l.e23 as int);
    let (b01, b02, b03) = (l.e01 as int, l.e02 as int, l.e03 as int);
    lemma_monomial(dx, b12);
    lemma_monomial(dx, b31);
    lemma_monomial(dx, b23);
    lemma_monomial(dy, b12);
    lemma_monomial(dy, b31);
    lemma_monomial(dy, b23);
    lemma_monomial(dz, b12);
    lemma_monomial(dz, b31);
    lemma_monomial(dz, b23);
    assert(x.s == 0 && x.e0123 == 0 && x.odd_is_zero());
    assert((-dx) * x.s == 0 && (-dy) * x.s == 0 && (-dz) * x.s == 0);
    assert(half.s == 0 && half.e12 == 2 * b12 && half.e31 == 2 * b31 && half.e23 == 2 * b23);
    assert(half.e01 == 2 * b01 + b12 * dy - b31 * dz);
    assert(half.e02 == 2 * b02 - b12 * dx + b23 * dz);
    assert(half.e03 == 2 * b03 - b23 * dy + b31 * dx);
    assert(half.e0123 == -(b23 * dx) - b31 * dy - b12 * dz);
    assert(half.odd_is_zero());
    assert(half.e12 * dx == 2 * (b12 * dx) && half.e12 * dy == 2 * (b12 * dy) && half.e12 * dz
        == 2 * (b12 * dz));
    assert(half.e31 * dx == 2 * (b31 * dx) && half.e31 * dy == 2 * (b31 * dy) && half.e31 * dz
        == 2 * (b31 * dz));
    assert(half.e23 * dx == 2 * (b23 * dx) && half.e23 * dy == 2 * (b23 * dy) && half.e23 * dz
        == 2 * (b23 * dz));
    assert(half.s * dx == 0 && half.s * dy == 0 && half.s * dz == 0);
    assert(whole.s == 0 && whole.e0123 == 0 && whole.odd_is_zero());
    assert(whole.e12 == 4 * b12 && whole.e31 == 4 * b31 && whole.e23 == 4 * b23);
    assert(whole.e01 == 4 * (b01 + b12 * dy - b31 * dz));
    assert(whole.e02 == 4 * (b02 - b12 * dx + b23 * dz));
    assert(whole.e03 == 4 * (b03 - b23 * dy + b31 * dx));
    assert(b12 * dy == l.e12 * d.e013 && b31 * dz == l.e31 * d.e021 && b12 * dx == l.e12 * d.e032);
    assert(b23 * dz == l.e23 * d.e021 && b23 * dy == l.e23 * d.e013 && b31 * dx == l.e31 * d.e032);
    lemma_mul_bounded(b12, dy, LIMIT as int);
    lemma_mul_bounded(b31, dz, LIMIT as int);
    lemma_mul_bounded(b12, dx, LIMIT as int);
    lemma_mul_bounded(b23, dz, LIMIT as int);
    lemma_mul_bounded(b23, dy, LIMIT as int);
    lemma_mul_bounded(b31, dx, LIMIT as int);
}

/// Composing two translations translates by the sum of their directions:
/// the product is the translation by `d + e`, at twice its scale.
pub proof fn lemma_translations_compose(d: Trivector, e: Trivector)
    requires
        d.within(LIMIT as int),
        e.within(LIMIT as int),
    ensures
        Versor::Even(Motor::spec_translation(d)).spec_geo(Versor::Even(Motor::spec_translation(e)))
            == Versor::spec_from_motor(
            Motor::spec_translation(d.spec_add(e)).spec_scale(2),
        ),
{
    lemma_translation_value(d);
    lemma_translation_value(e);
    let (x, y, z) = (d.e032 as int, d.e013 as int, d.e021 as int);
    lemma_translator_left(x, y, z, Motor::spec_translation(e).full().value());
}

/// Sandwiching a point (or a direction) of weight `w` with the translation by
/// the direction `(dx, dy, dz)` moves it by `w (dx, dy, dz)`, at four times
/// the scale. Coordinates are stored negated, hence the signs.
pub proof fn lemma_translation_moves_point(p: Trivector, dx: Scalar, dy: Scalar, dz: Scalar)
    requires
        !p.spec_is_zero(),
        p.within(LIMIT as int),
        bounded(dx as int, LIMIT as int),
        bounded(dy as int, LIMIT as int),
        bounded(dz as int, LIMIT as int),
    ensures
        Motor::spec_translation(Trivector::spec_direction(dx, dy, dz)).spec_sandwich(
            AnyKVector::Three(p),
        ) == Versor::KVec(
            AnyKVector::Three(
                Trivector {
                    e123: (4 * p.e123) as Scalar,
                    e032: (4 * (p.e032 - p.e123 * dx)) as Scalar,
                    e013: (4 * (p.e013 - p.e123 * dy)) as Scalar,
                    e021: (4 * (p.e021 - p.e123 * dz)) as Scalar,
                },
            ),
        ),
{
    let d = Trivector::spec_direction(dx, dy, dz);
    lemma_translator_on_trivector(p, d);
    lemma_negated_factor(p.e123 as int, dx as int, d.e032 as int);
    lemma_negated_factor(p.e123 as int, dy as int, d.e013 as int);
    lemma_negated_factor(p.e123 as int, dz as int, d.e021 as int);
}

/// The translation by `(dx, dy, dz)` takes the point `(x, y, z)` to the point
/// `(x + dx, y + dy, z + dz)`, at four times the scale.
pub proof fn lemma_translation_moves_point_to(
    x: Scalar,
    y: Scalar,
    z: Scalar,
    dx: Scalar,
    dy: Scalar,
    dz: Scalar,
)
    requires
        bounded(x as int, LIMIT as int),
        bounded(y as int, LIMIT as int),
        bounded(z as int, LIMIT as int),
        bounded(dx as int, LIMIT as int),
        bounded(dy as int, LIMIT as int),
        bounded(dz as int, LIMIT as int),
    ensures
        Motor::spec_translation(Trivector::spec_direction(dx, dy, dz)).spec_sandwich(
            AnyKVector::Three(Trivector::spec_point(x, y, z)),
        ) == Versor::KVec(
            AnyKVector::Three(
                Trivector::spec_point(
                    (x + dx) as Scalar,
                    (y + dy) as Scalar,
                    (z + dz) as Scalar,
                ).spec_scale(4),
            ),
        ),
{
    let p = Trivector::spec_point(x, y, z);
    lemma_translation_moves_point(p, dx, dy, dz);
    assert(p.e123 * dx == dx && p.e123 * dy == dy && p.e123 * dz == dz);
}

/// Sandwiching the plane `a x + b y + c z = w` with the translation by the
/// direction `(dx, dy, dz)` keeps its normal and moves it to
/// `a x + b y + c z = w + a dx + b dy + c dz`, at four times the scale.
pub proof fn lemma_translation_moves_plane(v: Vector, dx: Scalar, dy: Scalar, dz: Scalar)
    requires
        !v.spec_is_zero(),
        v.within(LIMIT as int),
        bounded(dx as int, LIMIT as int),
        bounded(dy as int, LIMIT as int),
        bounded(dz as int, LIMIT as int),
    ensures
        Motor::spec_translation(Trivector::spec_direction(dx, dy, dz)).spec_sandwich(
            AnyKVector::One(v),
        ) == Versor::KVec(
            AnyKVector::One(
                Vector {
                    e1: (4 * v.e1) as Scalar,
                    e2: (4 * v.e2) as Scalar,
                    e3: (4 * v.e3) as Scalar,
                    e0: (4 * (v.e0 + (v.e1 * dx + v.e2 * dy + v.e3 * dz))) as Scalar,
                },
            ),
        ),
{
    let d = Trivector::spec_direction(dx, dy, dz);
    lemma_translator_on_vector(v, d);
    lemma_negated_factor(v.e1 as int, dx as int, d.e032 as int);
    lemma_negated_factor(v.e2 as int, dy as int, d.e013 as int);
    lemma_negated_factor(v.e3 as int, dz as int, d.e021 as int);
}

/// Sandwiching a line with the translation by the direction `(dx, dy, dz)`
/// keeps its direction and moves its moment, at four times the scale.
pub proof fn lemma_translation_moves_line(l: Bivector, dx: Scalar, dy: Scalar, dz: Scalar)
    requires
        !l.spec_is_zero(),
        l.within(LIMIT as int),
        bounded(dx as int, LIMIT as int),
        bounded(dy as int, LIMIT as int),
        bounded(dz as int, LIMIT as int),
    ensures
        Motor::spec_translation(Trivector::spec_direction(dx, dy, dz)).spec_sandwich(
            AnyKVector::Two(l),
        ) == Versor::KVec(
            AnyKVector::Two(
                Bivector {
                    e12: (4 * l.e12) as Scalar,
                    e31: (4 * l.e31) as Scalar,
                    e23: (4 * l.e23) as Scalar,
                    e01: (4 * (l.e01 - l.e12 * dy + l.e31 * dz)) as Scalar,
                    e02: (4 * (l.e02 + l.e12 * dx - l.e23 * dz)) as Scalar,
                    e03: (4 * (l.e03 + l.e23 * dy - l.e31 * dx)) as Scalar,
                },
            ),
        ),
{
    let d = Trivector::spec_direction(dx, dy, dz);
    lemma_translator_on_bivector(l, d);
    lemma_negated_factor(l.e12 as int, dy as int, d.e013 as int);
    lemma_negated_factor(l.e31 as int, dz as int, d.e021 as int);
    lemma_negated_factor(l.e12 as int, dx as int, d.e032 as int);
    lemma_negated_factor(l.e23 as int, dz as int, d.e021 as int);
    lemma_negated_factor(l.e23 as int, dy as int, d.e013 as int);
    lemma_negated_factor(l.e31 as int, dx as int, d.e032 as int);
}

} // verus!

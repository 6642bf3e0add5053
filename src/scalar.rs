//! Coefficients and the arithmetic bounds that keep products exact.
use vstd::prelude::*;

verus! {

/// A grade-0 element; also the type of every coefficient.
pub type Scalar = i128;

/// Largest magnitude of a coefficient that may be negated: every `i128` but the least.
pub const NEG_LIMIT: i128 = 170141183460469231731687303715884105727;

/// Largest magnitude of a coefficient that may enter a product (2^60).
pub const LIMIT: i128 = 1152921504606846976;

/// Largest magnitude of a coefficient that may enter a sandwich (2^28).
pub const SMALL: i128 = 268435456;

/// Largest magnitude of a bivector coefficient whose inverse is computed (2^28).
pub const INVERSE_LIMIT: i128 = 268435456;

/// `x` lies in `[-bound, bound]`.
pub open spec fn bounded(x: int, bound: int) -> bool {
    -bound <= x <= bound
}

pub(crate) proof fn lemma_mul_bounded(x: int, y: int, b: int)
    requires
        b >= 0,
        bounded(x, b),
        bounded(y, b),
    ensures
        bounded(x * y, b * b),
{
    assert(bounded(x * y, b * b)) by (nonlinear_arith)
        requires
            b >= 0,
            bounded(x, b),
            bounded(y, b),
    ;
}

/// A factor stored negated negates the product.
pub(crate) proof fn lemma_negated_factor(p: int, q: int, nq: int)
    requires
        nq == -q,
    ensures
        p * nq == -(p * q),
{
    assert(p * nq == -(p * q)) by (nonlinear_arith)
        requires
            nq == -q,
    ;
}

/// The product of two coefficients, with the bounds that callers sum over.
pub(crate) fn times(x: Scalar, y: Scalar) -> (r: Scalar)
    requires
        bounded(x as int, LIMIT as int),
        bounded(y as int, LIMIT as int),
    ensures
        r == x * y,
        bounded(r as int, LIMIT * LIMIT),
        bounded(x as int, SMALL as int) && bounded(y as int, SMALL as int) ==> bounded(
            r as int,
            SMALL * SMALL,
        ),
{
    proof {
        lemma_mul_bounded(x as int, y as int, LIMIT as int);
        if bounded(x as int, SMALL as int) && bounded(y as int, SMALL as int) {
            lemma_mul_bounded(x as int, y as int, SMALL as int);
        }
        assert(LIMIT * LIMIT < 0x7fff_ffff_ffff_ffff_ffff_ffff_ffff_ffff);
    }
    x * y
}

} // verus!

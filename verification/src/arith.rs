//! Facts about flooring division that the fixed-point proofs share.

use vstd::prelude::*;

verus! {

/// A quotient is the unique `q` with `q * d <= x < (q + 1) * d`.
pub proof fn lemma_floor_div_unique(x: int, d: int, q: int)
    requires
        d > 0,
        q * d <= x < (q + 1) * d,
    ensures
        x / d == q,
        x % d == x - q * d,
{
    assert((q + 1) * d == q * d + d) by (nonlinear_arith);
    vstd::arithmetic::div_mod::lemma_fundamental_div_mod_converse(x, d, q, x - q * d);
}

/// The quotient and remainder of a flooring division bracket the dividend.
pub proof fn lemma_floor_div_bounds(x: int, d: int)
    requires
        d > 0,
    ensures
        (x / d) * d <= x < (x / d + 1) * d,
        x == (x / d) * d + x % d,
        0 <= x % d < d,
{
    vstd::arithmetic::div_mod::lemma_fundamental_div_mod(x, d);
    vstd::arithmetic::div_mod::lemma_mod_bound(x, d);
    assert((x / d + 1) * d == (x / d) * d + d) by (nonlinear_arith);
    assert(d * (x / d) == (x / d) * d) by (nonlinear_arith);
}

/// Flooring division is monotone in the dividend.
pub proof fn lemma_floor_div_monotone(x: int, y: int, d: int)
    requires
        d > 0,
        x <= y,
    ensures
        x / d <= y / d,
{
    vstd::arithmetic::div_mod::lemma_div_is_ordered(x, y, d);
}

/// Whole multiples of the divisor pass through a flooring division.
pub proof fn lemma_floor_div_split(q: int, r: int, d: int)
    requires
        d > 0,
    ensures
        (q * d + r) / d == q + r / d,
        (q * d + r) % d == r % d,
{
    lemma_floor_div_bounds(r, d);
    let k = r / d;
    assert((q + k) * d == q * d + k * d) by (nonlinear_arith);
    assert((q + k + 1) * d == q * d + (k + 1) * d) by (nonlinear_arith);
    lemma_floor_div_unique(q * d + r, d, q + k);
}

/// A non-negative dividend gives a non-negative quotient.
pub proof fn lemma_floor_div_nonneg(x: int, d: int)
    requires
        d > 0,
        x >= 0,
    ensures
        x / d >= 0,
{
    lemma_floor_div_monotone(0, x, d);
    lemma_floor_div_unique(0, d, 0);
}

/// A whole multiple of the divisor divides exactly.
pub proof fn lemma_exact_div(q: int, d: int)
    requires
        d > 0,
    ensures
        (q * d) / d == q,
        (d * q) / d == q,
        (q * d) % d == 0,
{
    assert((q + 1) * d == q * d + d) by (nonlinear_arith);
    assert(d * q == q * d) by (nonlinear_arith);
    lemma_floor_div_unique(q * d, d, q);
}

/// Scaling by a factor of at most one (`b / m`) does not enlarge `a`.
pub proof fn lemma_scale_down_le(a: int, b: int, m: int)
    requires
        0 <= a,
        0 <= b <= m,
        m > 0,
    ensures
        0 <= a * b / m <= a,
{
    assert(0 <= a * b <= a * m) by (nonlinear_arith)
        requires
            0 <= a,
            0 <= b <= m,
    ;
    lemma_floor_div_nonneg(a * b, m);
    lemma_floor_div_monotone(a * b, a * m, m);
    lemma_exact_div(a, m);
}

/// The ratio of `a` to a larger `b`, scaled by `m`, is at most `m`.
pub proof fn lemma_ratio_le(a: int, b: int, m: int)
    requires
        0 <= a <= b,
        0 < b,
        0 <= m,
    ensures
        0 <= a * m / b <= m,
{
    assert(0 <= a * m <= m * b) by (nonlinear_arith)
        requires
            0 <= a <= b,
            0 <= m,
    ;
    lemma_floor_div_nonneg(a * m, b);
    lemma_floor_div_monotone(a * m, m * b, b);
    lemma_exact_div(m, b);
}

} // verus!

//! Exact fractions. The arithmetic is done by `num_rational`; this module states
//! what its results are and proves what the rest of the crate needs of them.

use num_rational::Ratio;
use vstd::arithmetic::div_mod::{lemma_div_multiples_vanish_quotient, lemma_fundamental_div_mod};
use vstd::prelude::*;

verus! {

/// The greatest common divisor of two naturals, by Euclid's recursion;
/// `gcd(0, 0)` is 0.
pub open spec fn gcd(a: nat, b: nat) -> nat
    decreases b,
{
    if b == 0 {
        a
    } else {
        gcd(b, a % b)
    }
}

/// The absolute value of an integer.
pub open spec fn magnitude(x: int) -> nat {
    if x < 0 {
        (-x) as nat
    } else {
        x as nat
    }
}

/// The fraction `numer / denom` in lowest terms with a positive denominator.
pub open spec fn lowest_terms(numer: int, denom: int) -> (int, int) {
    let g = gcd(magnitude(numer), magnitude(denom)) as int;
    if denom < 0 {
        ((-numer) / g, (-denom) / g)
    } else {
        (numer / g, denom / g)
    }
}

/// The quotient `numer / denom` rounded towards zero.
pub open spec fn quotient_toward_zero(numer: int, denom: int) -> int {
    let q = (magnitude(numer) / magnitude(denom)) as int;
    if (numer < 0) == (denom < 0) {
        q
    } else {
        -q
    }
}

/// Small enough that the sum of two products of such numbers stays inside
/// `i64`.
pub open spec fn fits(x: int) -> bool {
    -0x7fff_ffff <= x <= 0x7fff_ffff
}

/// `num_rational::Ratio::<i64>::new`: the fraction `numer / denom` reduced to
/// lowest terms, its denominator made positive. A zero denominator, which
/// makes it panic, is excluded, and so is `i64::MIN`, which has no negative.
#[verifier::external_body]
pub(crate) fn ratio_new(numer: i64, denom: i64) -> (r: (i64, i64))
    requires
        denom != 0,
        numer > i64::MIN,
        denom > i64::MIN,
    ensures
        (r.0 as int, r.1 as int) == lowest_terms(numer as int, denom as int),
{
    Ratio::new(numer, denom).into_raw()
}

/// `Add` of two `num_rational::Ratio<i64>`: the sum of `a.0 / a.1` and
/// `b.0 / b.1` in lowest terms. The operands need not be reduced. They are
/// kept small enough that the common denominator and the two numerators over
/// it, which the sum is made from, stay inside `i64`.
#[verifier::external_body]
pub(crate) fn ratio_add(a: (i64, i64), b: (i64, i64)) -> (r: (i64, i64))
    requires
        a.1 > 0,
        b.1 > 0,
        fits(a.0 as int),
        fits(a.1 as int),
        fits(b.0 as int),
        fits(b.1 as int),
    ensures
        (r.0 as int, r.1 as int) == lowest_terms(a.0 * b.1 + b.0 * a.1, a.1 * b.1),
{
    (Ratio::new_raw(a.0, a.1) + Ratio::new_raw(b.0, b.1)).into_raw()
}

/// `Mul<i64>` of a `num_rational::Ratio<i64>`: `a.0 / a.1` times the integer
/// `k`, in lowest terms. The operands are kept small enough that the product
/// of the numerator and `k` stays inside `i64`.
#[verifier::external_body]
pub(crate) fn ratio_scale(a: (i64, i64), k: i64) -> (r: (i64, i64))
    requires
        a.1 > 0,
        fits(a.0 as int),
        fits(a.1 as int),
        fits(k as int),
    ensures
        (r.0 as int, r.1 as int) == lowest_terms(a.0 * k, a.1 as int),
{
    (Ratio::new_raw(a.0, a.1) * k).into_raw()
}

/// `num_rational::Ratio::<i64>::to_integer`: the whole part of `a.0 / a.1`,
/// rounded towards zero. It divides, so a zero denominator is excluded, and
/// `i64::MIN` as numerator, whose quotient by -1 does not exist.
#[verifier::external_body]
pub(crate) fn ratio_to_integer(a: (i64, i64)) -> (q: i64)
    requires
        a.1 != 0,
        a.0 > i64::MIN,
    ensures
        q == quotient_toward_zero(a.0 as int, a.1 as int),
{
    Ratio::new_raw(a.0, a.1).to_integer()
}

/// The greatest common divisor divides both numbers, and it is positive
/// unless both are zero.
pub proof fn lemma_gcd_divides(a: nat, b: nat)
    ensures
        a > 0 || b > 0 ==> gcd(a, b) > 0,
        gcd(a, b) > 0 ==> a % gcd(a, b) == 0 && b % gcd(a, b) == 0,
    decreases b,
{
    if b != 0 {
        lemma_gcd_divides(b, a % b);
        let g = gcd(a, b) as int;
        lemma_fundamental_div_mod(a as int, b as int);
        lemma_fundamental_div_mod(b as int, g);
        lemma_fundamental_div_mod((a % b) as int, g);
        let qb = (b as int) / g;
        let qr = ((a % b) as int) / g;
        let k = (a as int) / (b as int);
        assert(a == g * (qb * k + qr)) by (nonlinear_arith)
            requires
                a == b * k + a % b,
                b == g * qb,
                a % b == g * qr,
        ;
        vstd::arithmetic::div_mod::lemma_mod_multiples_basic(qb * k + qr, g);
    }
}

/// What reducing a fraction keeps: its value, a positive denominator, and
/// sizes no greater than before. `scale` is the common factor taken out.
pub proof fn lemma_lowest_terms(numer: int, denom: int) -> (scale: int)
    requires
        denom > 0,
    ensures
        scale > 0,
        numer == scale * lowest_terms(numer, denom).0,
        denom == scale * lowest_terms(numer, denom).1,
        lowest_terms(numer, denom).1 > 0,
        lowest_terms(numer, denom).1 <= denom,
        magnitude(lowest_terms(numer, denom).0) <= magnitude(numer),
        numer >= 0 ==> lowest_terms(numer, denom).0 >= 0,
        0 <= numer < denom ==> lowest_terms(numer, denom).0 < lowest_terms(numer, denom).1,
{
    let g = gcd(magnitude(numer), magnitude(denom)) as int;
    lemma_gcd_divides(magnitude(numer), magnitude(denom));
    let r = lowest_terms(numer, denom);
    lemma_fundamental_div_mod(denom, g);
    lemma_fundamental_div_mod(numer, g);
    assert(numer % g == 0) by {
        if numer < 0 {
            lemma_fundamental_div_mod(-numer, g);
            let q = (-numer) / g;
            assert(numer == g * (-q)) by (nonlinear_arith)
                requires
                    -numer == g * q,
            ;
            vstd::arithmetic::div_mod::lemma_mod_multiples_basic(-q, g);
        }
    }
    assert(r.1 > 0 && r.1 <= denom && magnitude(r.0) <= magnitude(numer) && (numer >= 0 ==> r.0
        >= 0) && (0 <= numer < denom ==> r.0 < r.1)) by (nonlinear_arith)
        requires
            g > 0,
            denom > 0,
            numer == g * r.0,
            denom == g * r.1,
    ;
    g
}

/// Taking a common factor out of a non-negative fraction keeps its whole part.
pub proof fn lemma_whole_part_of_lowest_terms(numer: int, denom: int)
    requires
        numer >= 0,
        denom > 0,
    ensures
        quotient_toward_zero(lowest_terms(numer, denom).0, lowest_terms(numer, denom).1) == numer
            / denom,
{
    let g = lemma_lowest_terms(numer, denom);
    let r = lowest_terms(numer, denom);
    lemma_div_multiples_vanish_quotient(g, r.0, r.1);
}

} // verus!

//! Rates as basis points and quantities as thousandths, for storage.
use vstd::prelude::*;
use crate::decimal::{
    Dec, abs, checked_mul, dec_checked_mul, int_dec, lemma_lit_units, lemma_pow10_add,
    lemma_pow10_pos, lemma_round_even_integral, lemma_trunc_int_units, lit, max_mantissa, pow10,
    round_dp_even, round_half_even, to_i64, trunc_int,
};

verus! {

/// An integer number of units of 10^-28, truncated toward zero to whole units.
pub open spec fn trunc_units(u: int) -> int {
    if u < 0 {
        -((-u) / (pow10(28) as int))
    } else {
        u / (pow10(28) as int)
    }
}

pub open spec fn fits_i64(v: int) -> bool {
    i64::MIN <= v <= i64::MAX
}

/// `(d × n).to_i64().unwrap_or(0)`: the product truncated to an integer,
/// zero when that does not fit; `None` where the product overflows.
pub open spec fn truncated_product(d: Dec, n: int) -> Option<i64> {
    match dec_checked_mul(d, int_dec(n)) {
        None => None,
        Some(p) => Some(
            if fits_i64(trunc_int(p)) {
                trunc_int(p) as i64
            } else {
                0i64
            },
        ),
    }
}

pub open spec fn basis_points_of(d: Dec) -> Option<i64> {
    truncated_product(d, 10000)
}

pub open spec fn thousandths_of(d: Dec) -> Option<i64> {
    truncated_product(d, 1000)
}

/// `(d × 1000).round_dp(0).to_i64().unwrap_or(0)`; `None` where the
/// product overflows.
pub open spec fn rounded_thousandths_of(d: Dec) -> Option<i64> {
    match dec_checked_mul(d, int_dec(1000)) {
        None => None,
        Some(p) => Some(
            if fits_i64(trunc_int(round_half_even(p, 0))) {
                trunc_int(round_half_even(p, 0)) as i64
            } else {
                0i64
            },
        ),
    }
}

/// `d × factor` truncated to an integer, or zero when that does not fit.
pub open spec fn scaled_int(d: Dec, factor: int) -> int {
    let t = trunc_units(d.units() * factor);
    if fits_i64(t) {
        t
    } else {
        0
    }
}

/// The product `d × factor` is computed exactly.
pub open spec fn exact_product(d: Dec, factor: int) -> bool {
    abs(d.mantissa * factor) <= max_mantissa()
}

/// `(d × n).to_i64().unwrap_or(0)` for a whole factor `n`.  `None` where
/// the product overflows.
fn scaled_to_i64(d: Dec, n: i64) -> (r: Option<i64>)
    requires
        d.wf(),
        0 < n <= 1000000,
    ensures
        r == match dec_checked_mul(d, int_dec(n as int)) {
            None => None,
            Some(p) => Some(
                if fits_i64(trunc_int(p)) {
                    trunc_int(p) as i64
                } else {
                    0i64
                },
            ),
        },
        exact_product(d, n as int) ==> r == Some(scaled_int(d, n as int) as i64),
{
    let p = checked_mul(d, Dec::from_int(n))?;
    proof {
        lemma_trunc_int_units(p);
        if exact_product(d, n as int) {
            assert(p.units() == d.mantissa * n * pow10((28 - d.scale) as nat));
            assert(d.units() * n == d.mantissa * n * pow10((28 - d.scale) as nat)) by (
            nonlinear_arith)
                requires
                    d.units() == d.mantissa * pow10((28 - d.scale) as nat),
            ;
        }
    }
    match to_i64(p) {
        Some(v) => Some(v),
        None => Some(0),
    }
}

/// A rate as basis points (`0.04` → 400); zero when it does not fit.
/// `None` where the product overflows.
pub fn decimal_to_basis_points(dec: &Dec) -> (r: Option<i64>)
    requires
        dec.wf(),
    ensures
        r == basis_points_of(*dec),
        exact_product(*dec, 10000) ==> r == Some(scaled_int(*dec, 10000) as i64),
{
    scaled_to_i64(*dec, 10000)
}

/// Basis points as a rate (400 → `0.0400`).
pub fn basis_points_to_decimal(bp: i64) -> (r: Dec)
    ensures
        r == lit(bp as int, 4),
        r.wf(),
{
    Dec::new(bp, 4)
}

/// Hours as thousandths (`40.5` → 40500); zero when it does not fit.
/// `None` where the product overflows.
pub fn decimal_to_thousandths(dec: &Dec) -> (r: Option<i64>)
    requires
        dec.wf(),
    ensures
        r == thousandths_of(*dec),
        exact_product(*dec, 1000) ==> r == Some(scaled_int(*dec, 1000) as i64),
{
    scaled_to_i64(*dec, 1000)
}

/// Thousandths as hours (40500 → `40.500`).
pub fn thousandths_to_decimal(th: i64) -> (r: Dec)
    ensures
        r == lit(th as int, 3),
        r.wf(),
{
    Dec::new(th, 3)
}

/// Days as thousandths, rounded half to even (`0.3846` → 385); zero when
/// it does not fit.  `None` where the product overflows.
pub fn decimal_to_days_thousandths(value: &Dec) -> (r: Option<i64>)
    requires
        value.wf(),
    ensures
        r == rounded_thousandths_of(*value),
        value.scale <= 3 && exact_product(*value, 1000) ==> r == Some(
            scaled_int(*value, 1000) as i64,
        ),
{
    let p = checked_mul(*value, Dec::from_int(1000))?;
    let rounded = round_dp_even(p, 0);
    proof {
        if value.scale <= 3 && exact_product(*value, 1000) {
            let v = lemma_whole_thousandths(*value);
            assert(p.units() == value.mantissa * 1000 * pow10((28 - value.scale) as nat));
            assert(p.units() == v * pow10(28));
            lemma_round_even_integral(p, v);
            assert(pow10(0) == 1);
            assert(trunc_int(rounded) == v);
        }
    }
    match to_i64(rounded) {
        Some(v) => Some(v),
        None => Some(0),
    }
}

/// A value with at most three decimals times 1000 is the whole number `v`
/// (its mantissa times 10^(3 - scale)), and truncating it gives `v`.
proof fn lemma_whole_thousandths(d: Dec) -> (v: int)
    requires
        d.wf(),
        d.scale <= 3,
    ensures
        v == d.mantissa * pow10((3 - d.scale) as nat),
        d.units() * 1000 == v * pow10(28),
        d.mantissa * 1000 * pow10((28 - d.scale) as nat) == v * pow10(28),
        trunc_units(d.units() * 1000) == v,
{
    let k = (3 - d.scale) as nat;
    let m = d.mantissa as int;
    let v = m * pow10(k);
    lemma_pow10_add(k, 25);
    assert((k + 25) as nat == (28 - d.scale) as nat);
    lemma_pow10_add(25, 3);
    assert(pow10(3) == 1000) by {
        assert(pow10(0) == 1);
        assert(pow10(1) == 10);
        assert(pow10(2) == 100);
    }
    lemma_pow10_pos(28);
    lemma_pow10_add(k, d.scale as nat);
    assert((k + d.scale) as nat == 3);
    assert(d.units() * 1000 == v * pow10(28)) by (nonlinear_arith)
        requires
            d.units() == m * pow10((28 - d.scale) as nat),
            pow10((28 - d.scale) as nat) == pow10(k) * pow10(25),
            pow10(28) == pow10(25) * pow10(3),
            pow10(3) == 1000,
            v == m * pow10(k),
    ;
    assert(m * 1000 * pow10((28 - d.scale) as nat) == v * pow10(28)) by (nonlinear_arith)
        requires
            pow10((28 - d.scale) as nat) == pow10(k) * pow10(25),
            pow10(28) == pow10(25) * pow10(3),
            pow10(3) == 1000,
            v == m * pow10(k),
    ;
    vstd::arithmetic::div_mod::lemma_div_multiples_vanish(v, pow10(28) as int);
    vstd::arithmetic::div_mod::lemma_div_multiples_vanish(-v, pow10(28) as int);
    assert(v * pow10(28) == pow10(28) * v) by (nonlinear_arith);
    assert(-(v * pow10(28)) == pow10(28) * (-v)) by (nonlinear_arith);
    assert(v < 0 <==> v * pow10(28) < 0) by (nonlinear_arith)
        requires
            pow10(28) >= 1,
    ;
    v
}

/// A number of days with at most three decimals, whose thousandths fit an
/// `i64`, is stored as thousandths (see `decimal_to_days_thousandths`) and
/// read back at scale 3 (see `thousandths_to_decimal`) as the same value.
pub proof fn law_days_thousandths_roundtrip(d: Dec)
    requires
        d.wf(),
        d.scale <= 3,
        fits_i64(d.mantissa * pow10((3 - d.scale) as nat)),
    ensures
        exact_product(d, 1000),
        lit(scaled_int(d, 1000), 3).units() == d.units(),
{
    let k = (3 - d.scale) as nat;
    let m = d.mantissa as int;
    let v = lemma_whole_thousandths(d);
    lemma_pow10_pos(d.scale as nat);
    lemma_pow10_add(k, d.scale as nat);
    assert((k + d.scale) as nat == 3);
    assert(pow10(3) == 1000) by {
        assert(pow10(0) == 1);
        assert(pow10(1) == 10);
        assert(pow10(2) == 100);
    }
    assert(m * 1000 == v * pow10(d.scale as nat)) by (nonlinear_arith)
        requires
            v == m * pow10(k),
            pow10(k) * pow10(d.scale as nat) == 1000,
    ;
    assert(pow10(d.scale as nat) <= 1000) by (nonlinear_arith)
        requires
            pow10(k) * pow10(d.scale as nat) == 1000,
            pow10(k) >= 1,
            pow10(d.scale as nat) >= 1,
    ;
    lemma_pow10_pos(k);
    assert(abs(m * 1000) <= max_mantissa()) by (nonlinear_arith)
        requires
            m * 1000 == v * pow10(d.scale as nat),
            i64::MIN <= v <= i64::MAX,
            1 <= pow10(d.scale as nat) <= 1000,
            max_mantissa() >= 79228162514264337593543950335int,
    ;
    lemma_lit_units(v, 3);
    lemma_pow10_add(3, 25);
    lemma_pow10_add(k, 25);
    assert((k + 25) as nat == (28 - d.scale) as nat);
    assert(v * pow10(25) == d.units()) by (nonlinear_arith)
        requires
            d.units() == m * pow10((28 - d.scale) as nat),
            pow10((28 - d.scale) as nat) == pow10(k) * pow10(25),
            v == m * pow10(k),
    ;
}

/// Any number of basis points converts to a rate and back unchanged.
pub proof fn law_basis_points_roundtrip(bp: i64)
    ensures
        exact_product(lit(bp as int, 4), 10000),
        scaled_int(lit(bp as int, 4), 10000) == bp,
{
    lemma_lit_units(bp as int, 4);
    let d = lit(bp as int, 4);
    assert(abs(bp * 10000) <= max_mantissa()) by (nonlinear_arith)
        requires
            i64::MIN <= bp <= i64::MAX,
    ;
    lemma_pow10_add(24, 4);
    assert(pow10(4) == 10000) by {
        assert(pow10(0) == 1);
        assert(pow10(1) == 10);
        assert(pow10(2) == 100);
        assert(pow10(3) == 1000);
    }
    lemma_pow10_pos(28);
    assert(d.units() * 10000 == bp * pow10(28)) by (nonlinear_arith)
        requires
            d.units() == bp * pow10(24),
            pow10(28) == pow10(24) * pow10(4),
            pow10(4) == 10000,
    ;
    vstd::arithmetic::div_mod::lemma_div_multiples_vanish(bp as int, pow10(28) as int);
    vstd::arithmetic::div_mod::lemma_div_multiples_vanish(-bp, pow10(28) as int);
    assert(bp * pow10(28) == pow10(28) * bp) by (nonlinear_arith);
    assert(-(bp * pow10(28)) == pow10(28) * (-bp)) by (nonlinear_arith);
    assert(bp < 0 <==> bp * pow10(28) < 0) by (nonlinear_arith)
        requires
            pow10(28) >= 1,
    ;
}

/// A rate with at most four decimals, whose basis points fit an `i64`,
/// converts to basis points and back to the same value.
pub proof fn law_rate_basis_points_roundtrip(d: Dec)
    requires
        d.wf(),
        d.scale <= 4,
        fits_i64(d.mantissa * pow10((4 - d.scale) as nat)),
    ensures
        lit(scaled_int(d, 10000), 4).units() == d.units(),
{
    let k = (4 - d.scale) as nat;
    let m = d.mantissa as int;
    let bp = m * pow10(k);
    lemma_pow10_add(k, 24);
    assert((k + 24) as nat == (28 - d.scale) as nat);
    lemma_pow10_add(24, 4);
    assert(pow10(4) == 10000) by {
        assert(pow10(0) == 1);
        assert(pow10(1) == 10);
        assert(pow10(2) == 100);
        assert(pow10(3) == 1000);
    }
    lemma_pow10_pos(28);
    lemma_pow10_pos(24);
    assert(d.units() * 10000 == bp * pow10(28)) by (nonlinear_arith)
        requires
            d.units() == m * pow10((28 - d.scale) as nat),
            pow10((28 - d.scale) as nat) == pow10(k) * pow10(24),
            pow10(28) == pow10(24) * pow10(4),
            pow10(4) == 10000,
            bp == m * pow10(k),
    ;
    vstd::arithmetic::div_mod::lemma_div_multiples_vanish(bp, pow10(28) as int);
    vstd::arithmetic::div_mod::lemma_div_multiples_vanish(-bp, pow10(28) as int);
    assert(bp * pow10(28) == pow10(28) * bp) by (nonlinear_arith);
    assert(-(bp * pow10(28)) == pow10(28) * (-bp)) by (nonlinear_arith);
    assert(bp < 0 <==> bp * pow10(28) < 0) by (nonlinear_arith)
        requires
            pow10(28) >= 1,
    ;
    assert(trunc_units(d.units() * 10000) == bp);
    lemma_lit_units(bp, 4);
    assert(lit(bp, 4).units() == bp * pow10(24));
    assert(bp * pow10(24) == d.units()) by (nonlinear_arith)
        requires
            d.units() == m * pow10((28 - d.scale) as nat),
            pow10((28 - d.scale) as nat) == pow10(k) * pow10(24),
            bp == m * pow10(k),
    ;
}

/// Any number of thousandths converts to hours and back unchanged.
pub proof fn law_thousandths_roundtrip(th: i64)
    ensures
        exact_product(lit(th as int, 3), 1000),
        scaled_int(lit(th as int, 3), 1000) == th,
{
    lemma_lit_units(th as int, 3);
    let d = lit(th as int, 3);
    assert(abs(th * 1000) <= max_mantissa()) by (nonlinear_arith)
        requires
            i64::MIN <= th <= i64::MAX,
    ;
    lemma_pow10_add(25, 3);
    assert(pow10(3) == 1000) by {
        assert(pow10(0) == 1);
        assert(pow10(1) == 10);
        assert(pow10(2) == 100);
    }
    lemma_pow10_pos(28);
    assert(d.units() * 1000 == th * pow10(28)) by (nonlinear_arith)
        requires
            d.units() == th * pow10(25),
            pow10(28) == pow10(25) * pow10(3),
            pow10(3) == 1000,
    ;
    vstd::arithmetic::div_mod::lemma_div_multiples_vanish(th as int, pow10(28) as int);
    vstd::arithmetic::div_mod::lemma_div_multiples_vanish(-th, pow10(28) as int);
    assert(th * pow10(28) == pow10(28) * th) by (nonlinear_arith);
    assert(-(th * pow10(28)) == pow10(28) * (-th)) by (nonlinear_arith);
    assert(th < 0 <==> th * pow10(28) < 0) by (nonlinear_arith)
        requires
            pow10(28) >= 1,
    ;
}

} // verus!

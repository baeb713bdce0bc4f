//! Fixed-point decimal numbers as plain values.
//!
//! A `Dec` holds exactly what a `rust_decimal::Decimal` holds: a signed
//! 96-bit mantissa and a base-10 scale between 0 and 28.  Its value is
//! `mantissa / 10^scale`.  Arithmetic is delegated to `rust_decimal`; the
//! contracts below say what is known of each operation.
use vstd::prelude::*;
use crate::text::nat_text;

verus! {

/// Largest mantissa magnitude a decimal can hold (2^96 - 1).
pub open spec fn max_mantissa() -> int {
    79228162514264337593543950335
}

/// Largest scale a decimal can hold.
pub open spec fn max_scale() -> nat {
    28
}

pub open spec fn pow10(n: nat) -> nat
    decreases n,
{
    if n == 0 {
        1
    } else {
        10 * pow10((n - 1) as nat)
    }
}

pub open spec fn abs(x: int) -> int {
    if x < 0 {
        -x
    } else {
        x
    }
}

/// A decimal number `mantissa × 10^(-scale)`.
#[derive(Clone, Copy, Debug, PartialEq, Eq, Structural)]
pub struct Dec {
    pub mantissa: i128,
    pub scale: u32,
}

impl Dec {
    /// The mantissa and scale are within what a decimal can hold.
    pub open spec fn wf(self) -> bool {
        &&& -max_mantissa() <= self.mantissa <= max_mantissa()
        &&& self.scale <= max_scale()
    }

    /// The value counted in units of 10^(-28).
    pub open spec fn units(self) -> int {
        self.mantissa * pow10((28 - self.scale) as nat)
    }

    /// `Decimal::new(num, scale)`.
    pub fn new(num: i64, scale: u32) -> (r: Dec)
        requires
            scale <= 28,
        ensures
            r.mantissa == num,
            r.scale == scale,
            r.wf(),
    {
        Dec { mantissa: num as i128, scale }
    }

    /// `Decimal::ZERO`.
    pub fn zero() -> (r: Dec)
        ensures
            r.mantissa == 0,
            r.scale == 0,
            r.wf(),
    {
        Dec { mantissa: 0, scale: 0 }
    }

    /// `Decimal::from(n)` for an `i32` or `i64`.
    pub fn from_int(n: i64) -> (r: Dec)
        ensures
            r.mantissa == n,
            r.scale == 0,
            r.wf(),
    {
        Dec { mantissa: n as i128, scale: 0 }
    }

    /// Mantissa and scale, checked to be within range.
    /// Whether the mantissa and scale are within what a decimal can hold.
    pub fn is_valid(&self) -> (r: bool)
        ensures
            r == self.wf(),
    {
        Dec::try_from_parts(self.mantissa, self.scale).is_some()
    }

    pub fn try_from_parts(mantissa: i128, scale: u32) -> (r: Option<Dec>)
        ensures
            r is Some <==> (-max_mantissa() <= mantissa <= max_mantissa() && scale <= 28),
            r is Some ==> r->0.mantissa == mantissa && r->0.scale == scale,
    {
        if scale <= 28 && -79228162514264337593543950335i128 <= mantissa && mantissa
            <= 79228162514264337593543950335i128 {
            Some(Dec { mantissa, scale })
        } else {
            None
        }
    }

    pub fn is_zero(&self) -> (r: bool)
        ensures
            r == (self.mantissa == 0),
    {
        self.mantissa == 0
    }
}

// ---------------------------------------------------------------------
// Exact specifications of rounding
// ---------------------------------------------------------------------

/// `m / 10^k` rounded to an integer, halves away from zero.
pub open spec fn div_round_half_away(m: int, k: nat) -> int {
    let q = abs(m) / (pow10(k) as int);
    let r = abs(m) % (pow10(k) as int);
    let q2 = if 2 * r >= pow10(k) {
        q + 1
    } else {
        q
    };
    if m < 0 {
        -q2
    } else {
        q2
    }
}

/// `m / 10^k` rounded to an integer, halves to the even neighbour.
pub open spec fn div_round_half_even(m: int, k: nat) -> int {
    let q = abs(m) / (pow10(k) as int);
    let r = abs(m) % (pow10(k) as int);
    let q2 = if 2 * r > pow10(k) || (2 * r == pow10(k) && q % 2 == 1) {
        q + 1
    } else {
        q
    };
    if m < 0 {
        -q2
    } else {
        q2
    }
}

/// `d` rounded to `dp` fractional digits, halves away from zero.
pub open spec fn round_half_away(d: Dec, dp: u32) -> Dec {
    if d.scale <= dp {
        d
    } else {
        Dec {
            mantissa: div_round_half_away(d.mantissa as int, (d.scale - dp) as nat) as i128,
            scale: dp,
        }
    }
}

/// `d` rounded to `dp` fractional digits, halves to even.
pub open spec fn round_half_even(d: Dec, dp: u32) -> Dec {
    if d.scale <= dp {
        d
    } else {
        Dec {
            mantissa: div_round_half_even(d.mantissa as int, (d.scale - dp) as nat) as i128,
            scale: dp,
        }
    }
}

/// The integer part of `d`, rounded toward zero.
pub open spec fn trunc_int(d: Dec) -> int {
    let q = abs(d.mantissa as int) / (pow10(d.scale as nat) as int);
    if d.mantissa < 0 {
        -q
    } else {
        q
    }
}

// ---------------------------------------------------------------------
// Names for the results of rust_decimal's arithmetic
// ---------------------------------------------------------------------

/// What `Decimal::checked_add` returns.
pub uninterp spec fn dec_checked_add(a: Dec, b: Dec) -> Option<Dec>;

/// What `Decimal::checked_sub` returns.
pub uninterp spec fn dec_checked_sub(a: Dec, b: Dec) -> Option<Dec>;

/// What `Decimal::checked_mul` returns.
pub uninterp spec fn dec_checked_mul(a: Dec, b: Dec) -> Option<Dec>;

/// What `Decimal::checked_div` returns.
pub uninterp spec fn dec_checked_div(a: Dec, b: Dec) -> Option<Dec>;

/// `k` zeros.
pub open spec fn zeros(k: nat) -> Seq<char> {
    Seq::new(k, |i: int| '0')
}

/// The digits of the mantissa's magnitude (none for zero), with zeros in
/// front up to at least `scale` digits.
pub open spec fn mantissa_digits(d: Dec) -> Seq<char> {
    let n = abs(d.mantissa as int);
    let ds = if n == 0 {
        Seq::<char>::empty()
    } else {
        nat_text(n as nat)
    };
    if ds.len() < d.scale {
        zeros((d.scale - ds.len()) as nat) + ds
    } else {
        ds
    }
}

/// `-` for a negative mantissa.
pub open spec fn sign_text(d: Dec) -> Seq<char> {
    if d.mantissa < 0 {
        seq!['-']
    } else {
        Seq::<char>::empty()
    }
}

/// The digits before the decimal point: `0` when there are none.
pub open spec fn whole_part(p: Seq<char>, whole: int) -> Seq<char> {
    if whole == 0 {
        seq!['0']
    } else {
        p.subrange(0, whole)
    }
}

/// What `format!("{:.2}", d)` prints for a decimal: the sign, the whole
/// digits and two fractional digits, truncated or padded with zeros.
pub open spec fn dec_fixed2_text(d: Dec) -> Seq<char> {
    let p = mantissa_digits(d);
    let whole = p.len() - d.scale;
    sign_text(d) + whole_part(p, whole) + seq!['.'] + (p + zeros(2)).subrange(whole, whole + 2)
}

/// What `format!("{}", d)` prints for a decimal: the sign, then the digits
/// with a decimal point before the last `scale` of them (`0` before the
/// point when there are no whole digits); `0` for a zero of scale 0.
pub open spec fn dec_display_text(d: Dec) -> Seq<char> {
    let p = mantissa_digits(d);
    let whole = p.len() - d.scale;
    sign_text(d) + if d.scale == 0 {
        if p.len() == 0 {
            seq!['0']
        } else {
            p
        }
    } else {
        whole_part(p, whole) + seq!['.'] + p.subrange(whole, p.len() as int)
    }
}

/// The exact sum of `a` and `b` fits in a mantissa at the larger of the two scales.
pub open spec fn sum_fits(a: Dec, b: Dec, sum_units: int) -> bool {
    let s = if a.scale >= b.scale {
        a.scale
    } else {
        b.scale
    };
    abs(sum_units) <= max_mantissa() * pow10((28 - s) as nat)
}

/// The larger of two scales.
pub open spec fn larger_scale(a: Dec, b: Dec) -> u32 {
    if a.scale >= b.scale {
        a.scale
    } else {
        b.scale
    }
}

/// A value of `u` units (of 10^-28) has a mantissa that fits at scale `s`.
pub open spec fn fits_at(u: int, s: nat) -> bool {
    abs(u) <= max_mantissa() * pow10((28 - s) as nat)
}

/// Both operands and their exact sum (`sum_units`) fit at the larger scale.
pub open spec fn aligned_fit(a: Dec, b: Dec, sum_units: int) -> bool {
    let s = larger_scale(a, b) as nat;
    fits_at(a.units(), s) && fits_at(b.units(), s) && fits_at(sum_units, s)
}

/// Facts known of every result of a checked operation.
pub open spec fn result_wf(r: Option<Dec>) -> bool {
    r is Some ==> r->0.wf()
}

/// `Decimal::checked_add`: `None` on overflow.  When the exact sum fits at
/// the larger scale, the result is that exact sum.  A zero operand gives
/// the other operand as it is (the second when both are zero); two
/// non-zero operands that fit at the larger scale, with their sum, give
/// the sum at that scale.
#[verifier::external_body]
pub(crate) fn checked_add(a: Dec, b: Dec) -> (r: Option<Dec>)
    requires
        a.wf(),
        b.wf(),
    ensures
        r == dec_checked_add(a, b),
        result_wf(r),
        sum_fits(a, b, a.units() + b.units()) ==> (r is Some && r->0.units() == a.units()
            + b.units()),
        a.mantissa == 0 ==> r == Some(b),
        (a.mantissa != 0 && b.mantissa == 0) ==> r == Some(a),
        (a.mantissa != 0 && b.mantissa != 0 && aligned_fit(a, b, a.units() + b.units())) ==> (
        r is Some && r->0.units() == a.units() + b.units() && r->0.scale == larger_scale(a, b)),
        (r is Some && a.mantissa >= 0 && b.mantissa >= 0) ==> r->0.mantissa >= 0,
{
    let x = rust_decimal::Decimal::from_i128_with_scale(a.mantissa, a.scale);
    let y = rust_decimal::Decimal::from_i128_with_scale(b.mantissa, b.scale);
    x.checked_add(y).map(|z| Dec { mantissa: z.mantissa(), scale: z.scale() })
}

/// `Decimal::checked_sub`: `None` on overflow.  When the exact difference
/// fits at the larger scale, the result is that exact difference.  A zero
/// first operand gives the second negated, a zero second operand the first
/// as it is; two non-zero operands that fit at the larger scale, with their
/// difference, give the difference at that scale.
#[verifier::external_body]
pub(crate) fn checked_sub(a: Dec, b: Dec) -> (r: Option<Dec>)
    requires
        a.wf(),
        b.wf(),
    ensures
        r == dec_checked_sub(a, b),
        result_wf(r),
        sum_fits(a, b, a.units() - b.units()) ==> (r is Some && r->0.units() == a.units()
            - b.units()),
        a.mantissa == 0 ==> (r is Some && r->0.mantissa == -b.mantissa && r->0.scale == b.scale),
        (a.mantissa != 0 && b.mantissa == 0) ==> r == Some(a),
        (a.mantissa != 0 && b.mantissa != 0 && aligned_fit(a, b, a.units() - b.units())) ==> (
        r is Some && r->0.units() == a.units() - b.units() && r->0.scale == larger_scale(a, b)),
{
    let x = rust_decimal::Decimal::from_i128_with_scale(a.mantissa, a.scale);
    let y = rust_decimal::Decimal::from_i128_with_scale(b.mantissa, b.scale);
    x.checked_sub(y).map(|z| Dec { mantissa: z.mantissa(), scale: z.scale() })
}

/// `Decimal::checked_mul`: `None` on overflow.  A zero operand gives zero
/// at scale 0.  When the product of the mantissas fits and the scales add
/// up to at most 28, the result is that product at the sum of the scales.
/// The sign of a product of two non-negative numbers is non-negative.
#[verifier::external_body]
pub(crate) fn checked_mul(a: Dec, b: Dec) -> (r: Option<Dec>)
    requires
        a.wf(),
        b.wf(),
    ensures
        r == dec_checked_mul(a, b),
        result_wf(r),
        (a.scale + b.scale <= 28 && abs(a.mantissa * b.mantissa) <= max_mantissa()) ==> (
        r is Some && r->0.units() == a.mantissa * b.mantissa * pow10(
            (28 - (a.scale + b.scale)) as nat,
        )),
        (a.mantissa == 0 || b.mantissa == 0) ==> r == Some(Dec { mantissa: 0, scale: 0 }),
        (a.mantissa != 0 && b.mantissa != 0 && a.scale + b.scale <= 28 && abs(
            a.mantissa * b.mantissa,
        ) <= max_mantissa()) ==> (r is Some && r->0.mantissa == a.mantissa * b.mantissa
            && r->0.scale == a.scale + b.scale),
        (r is Some && a.mantissa >= 0 && b.mantissa >= 0) ==> r->0.mantissa >= 0,
{
    let x = rust_decimal::Decimal::from_i128_with_scale(a.mantissa, a.scale);
    let y = rust_decimal::Decimal::from_i128_with_scale(b.mantissa, b.scale);
    x.checked_mul(y).map(|z| Dec { mantissa: z.mantissa(), scale: z.scale() })
}

/// `Decimal::checked_div`: `None` when dividing by zero or on overflow.
/// The quotient of a non-negative number by a positive one is non-negative.
#[verifier::external_body]
pub(crate) fn checked_div(a: Dec, b: Dec) -> (r: Option<Dec>)
    requires
        a.wf(),
        b.wf(),
    ensures
        r == dec_checked_div(a, b),
        result_wf(r),
        b.mantissa == 0 ==> r is None,
        (r is Some && a.mantissa >= 0 && b.mantissa > 0) ==> r->0.mantissa >= 0,
{
    let x = rust_decimal::Decimal::from_i128_with_scale(a.mantissa, a.scale);
    let y = rust_decimal::Decimal::from_i128_with_scale(b.mantissa, b.scale);
    x.checked_div(y).map(|z| Dec { mantissa: z.mantissa(), scale: z.scale() })
}

/// `a < b` on `Decimal`: compares the values.
#[verifier::external_body]
pub(crate) fn less_than(a: Dec, b: Dec) -> (r: bool)
    requires
        a.wf(),
        b.wf(),
    ensures
        r == (a.units() < b.units()),
{
    let x = rust_decimal::Decimal::from_i128_with_scale(a.mantissa, a.scale);
    let y = rust_decimal::Decimal::from_i128_with_scale(b.mantissa, b.scale);
    x < y
}

/// `Decimal::round_dp_with_strategy(dp, MidpointAwayFromZero)`: the value
/// rounded to `dp` fractional digits, halves away from zero; a value with
/// at most `dp` digits is returned as it is.
#[verifier::external_body]
pub(crate) fn round_dp_away(a: Dec, dp: u32) -> (r: Dec)
    requires
        a.wf(),
    ensures
        r == round_half_away(a, dp),
        r.wf(),
{
    let x = rust_decimal::Decimal::from_i128_with_scale(a.mantissa, a.scale);
    let z = x.round_dp_with_strategy(dp, rust_decimal::RoundingStrategy::MidpointAwayFromZero);
    Dec { mantissa: z.mantissa(), scale: z.scale() }
}

/// `Decimal::round_dp(dp)`: the value rounded to `dp` fractional digits,
/// halves to the even neighbour (banker's rounding).
#[verifier::external_body]
pub(crate) fn round_dp_even(a: Dec, dp: u32) -> (r: Dec)
    requires
        a.wf(),
    ensures
        r == round_half_even(a, dp),
        r.wf(),
{
    let x = rust_decimal::Decimal::from_i128_with_scale(a.mantissa, a.scale);
    let z = x.round_dp(dp);
    Dec { mantissa: z.mantissa(), scale: z.scale() }
}

/// `ToPrimitive::to_i64` on `Decimal`: the integer part toward zero, if it fits.
#[verifier::external_body]
pub(crate) fn to_i64(a: Dec) -> (r: Option<i64>)
    requires
        a.wf(),
    ensures
        r is Some <==> (i64::MIN <= trunc_int(a) <= i64::MAX),
        r is Some ==> r->0 == trunc_int(a),
{
    let x = rust_decimal::Decimal::from_i128_with_scale(a.mantissa, a.scale);
    rust_decimal::prelude::ToPrimitive::to_i64(&x)
}

/// `format!("{:.2}", d)` for a decimal: its digits with a decimal point
/// and two fractional digits (truncated), `-` before negative values.
#[verifier::external_body]
pub(crate) fn fixed2_text(a: Dec) -> (r: String)
    requires
        a.wf(),
    ensures
        r@ == dec_fixed2_text(a),
        r@.contains('.'),
{
    let x = rust_decimal::Decimal::from_i128_with_scale(a.mantissa, a.scale);
    format!("{:.2}", x)
}

/// `format!("{}", d)` for a decimal.
#[verifier::external_body]
pub(crate) fn display_text(a: Dec) -> (r: String)
    requires
        a.wf(),
    ensures
        r@ == dec_display_text(a),
{
    let x = rust_decimal::Decimal::from_i128_with_scale(a.mantissa, a.scale);
    format!("{}", x)
}

// ---------------------------------------------------------------------
// Verified helpers on top of the wrappers
// ---------------------------------------------------------------------

/// `Ord::min`: the first argument unless the second is smaller.
pub open spec fn spec_min(a: Dec, b: Dec) -> Dec {
    if b.units() < a.units() {
        b
    } else {
        a
    }
}

/// `Ord::max`: the second argument unless the first is larger.
pub open spec fn spec_max(a: Dec, b: Dec) -> Dec {
    if b.units() < a.units() {
        a
    } else {
        b
    }
}

pub fn dec_min(a: Dec, b: Dec) -> (r: Dec)
    requires
        a.wf(),
        b.wf(),
    ensures
        r == spec_min(a, b),
        r.wf(),
{
    if less_than(b, a) {
        b
    } else {
        a
    }
}

pub fn dec_max(a: Dec, b: Dec) -> (r: Dec)
    requires
        a.wf(),
        b.wf(),
    ensures
        r == spec_max(a, b),
        r.wf(),
{
    if less_than(b, a) {
        a
    } else {
        b
    }
}

pub fn dec_lt(a: Dec, b: Dec) -> (r: bool)
    requires
        a.wf(),
        b.wf(),
    ensures
        r == (a.units() < b.units()),
{
    less_than(a, b)
}

pub fn dec_le(a: Dec, b: Dec) -> (r: bool)
    requires
        a.wf(),
        b.wf(),
    ensures
        r == (a.units() <= b.units()),
{
    !less_than(b, a)
}

pub fn dec_eq(a: Dec, b: Dec) -> (r: bool)
    requires
        a.wf(),
        b.wf(),
    ensures
        r == (a.units() == b.units()),
{
    !less_than(a, b) && !less_than(b, a)
}

// ---------------------------------------------------------------------
// Arithmetic on results that may have overflowed
// ---------------------------------------------------------------------

pub open spec fn oadd(a: Option<Dec>, b: Option<Dec>) -> Option<Dec> {
    if a is Some && b is Some {
        dec_checked_add(a->0, b->0)
    } else {
        None
    }
}

pub open spec fn osub(a: Option<Dec>, b: Option<Dec>) -> Option<Dec> {
    if a is Some && b is Some {
        dec_checked_sub(a->0, b->0)
    } else {
        None
    }
}

pub open spec fn omul(a: Option<Dec>, b: Option<Dec>) -> Option<Dec> {
    if a is Some && b is Some {
        dec_checked_mul(a->0, b->0)
    } else {
        None
    }
}

pub open spec fn odiv(a: Option<Dec>, b: Option<Dec>) -> Option<Dec> {
    if a is Some && b is Some {
        dec_checked_div(a->0, b->0)
    } else {
        None
    }
}

pub open spec fn omin(a: Option<Dec>, b: Option<Dec>) -> Option<Dec> {
    if a is Some && b is Some {
        Some(spec_min(a->0, b->0))
    } else {
        None
    }
}

pub open spec fn omax(a: Option<Dec>, b: Option<Dec>) -> Option<Dec> {
    if a is Some && b is Some {
        Some(spec_max(a->0, b->0))
    } else {
        None
    }
}

pub open spec fn oround2(a: Option<Dec>) -> Option<Dec> {
    if a is Some {
        Some(round_half_away(a->0, 2))
    } else {
        None
    }
}

/// A literal decimal `mantissa × 10^(-scale)`.
pub open spec fn lit(mantissa: int, scale: nat) -> Dec {
    Dec { mantissa: mantissa as i128, scale: scale as u32 }
}

pub open spec fn zero_dec() -> Dec {
    Dec { mantissa: 0, scale: 0 }
}

pub open spec fn int_dec(n: int) -> Dec {
    Dec { mantissa: n as i128, scale: 0 }
}

pub proof fn lemma_pow10_pos(n: nat)
    ensures
        pow10(n) >= 1,
    decreases n,
{
    if n > 0 {
        lemma_pow10_pos((n - 1) as nat);
    }
}

/// A decimal is zero exactly when its mantissa is.
pub proof fn lemma_units_sign(d: Dec)
    requires
        d.wf(),
    ensures
        (d.units() == 0) <==> (d.mantissa == 0),
        (d.units() > 0) <==> (d.mantissa > 0),
        (d.units() < 0) <==> (d.mantissa < 0),
{
    lemma_pow10_pos((28 - d.scale) as nat);
    let p = pow10((28 - d.scale) as nat) as int;
    assert(d.units() == d.mantissa * p);
    if d.mantissa > 0 {
        assert(d.mantissa * p > 0) by (nonlinear_arith)
            requires
                d.mantissa > 0,
                p >= 1,
        ;
    } else if d.mantissa < 0 {
        assert(d.mantissa * p < 0) by (nonlinear_arith)
            requires
                d.mantissa < 0,
                p >= 1,
        ;
    }
}

/// The sum of `xs`, added left to right from zero (`Iterator::sum`).
pub open spec fn sum_of(xs: Seq<Dec>) -> Option<Dec>
    decreases xs.len(),
{
    if xs.len() == 0 {
        Some(zero_dec())
    } else {
        oadd(sum_of(xs.drop_last()), Some(xs.last()))
    }
}

/// A sum that overflows on a prefix overflows on the whole.
pub proof fn lemma_sum_none_extends(xs: Seq<Dec>, k: int)
    requires
        0 <= k <= xs.len(),
        sum_of(xs.subrange(0, k)) is None,
    ensures
        sum_of(xs) is None,
    decreases xs.len(),
{
    if k == xs.len() {
        assert(xs.subrange(0, k) =~= xs);
    } else {
        let t = xs.drop_last();
        assert(t.subrange(0, k) =~= xs.subrange(0, k));
        lemma_sum_none_extends(t, k);
    }
}

/// Adding up a vector of decimals, left to right from zero.
pub fn sum_decs(xs: &Vec<Dec>) -> (r: Option<Dec>)
    requires
        forall|i: int| 0 <= i < xs@.len() ==> (#[trigger] xs@[i]).wf(),
    ensures
        r == sum_of(xs@),
        r is Some ==> r->0.wf(),
{
    let n = xs.len();
    let mut total = Dec::zero();
    let mut i: usize = 0;
    proof {
        assert(xs@.subrange(0, 0).len() == 0);
    }
    while i < n
        invariant
            n == xs@.len(),
            i <= n,
            forall|j: int| 0 <= j < xs@.len() ==> (#[trigger] xs@[j]).wf(),
            total.wf(),
            sum_of(xs@.subrange(0, i as int)) == Some(total),
        decreases n - i,
    {
        let ghost pre = xs@.subrange(0, i + 1);
        proof {
            assert(pre.drop_last() =~= xs@.subrange(0, i as int));
            assert(pre.last() == xs@[i as int]);
        }
        total = match checked_add(total, xs[i]) {
            Some(t) => t,
            None => {
                proof {
                    lemma_sum_none_extends(xs@, i + 1);
                }
                return None;
            },
        };
        i = i + 1;
    }
    proof {
        assert(xs@.subrange(0, n as int) =~= xs@);
    }
    Some(total)
}

// ---------------------------------------------------------------------
// Rounding to cents
// ---------------------------------------------------------------------

/// `d` is a whole number of cents.
pub open spec fn whole_cents(d: Dec) -> bool {
    d.units() % (pow10(26) as int) == 0
}

pub proof fn lemma_pow10_add(a: nat, b: nat)
    ensures
        pow10(a + b) == pow10(a) * pow10(b),
    decreases a,
{
    if a == 0 {
        assert(pow10(a) == 1);
        assert(a + b == b);
    } else {
        let a1 = (a - 1) as nat;
        lemma_pow10_add(a1, b);
        assert((a + b) as nat - 1 == a1 + b);
        assert(pow10(a + b) == 10 * pow10(a1 + b));
        assert(pow10(a) == 10 * pow10(a1));
        assert(10 * (pow10(a1) * pow10(b)) == (10 * pow10(a1)) * pow10(b)) by (nonlinear_arith);
    }
}

pub proof fn lemma_pow10_ge10(k: nat)
    requires
        k >= 1,
    ensures
        pow10(k) >= 10,
{
    lemma_pow10_pos((k - 1) as nat);
}

/// Rounding an integer `m` to a multiple of `10^k` stays at or below `n`
/// when `m` is at most `n × 10^k`, and never grows in magnitude.
proof fn lemma_div_round_bounds(m: int, k: nat, n: int)
    requires
        k >= 1,
        m <= n * pow10(k),
    ensures
        div_round_half_away(m, k) <= n,
        abs(div_round_half_away(m, k)) <= abs(m),
        m >= 0 ==> div_round_half_away(m, k) >= 0,
{
    let p = pow10(k) as int;
    lemma_pow10_ge10(k);
    let a = abs(m);
    let q = a / p;
    let r = a % p;
    vstd::arithmetic::div_mod::lemma_fundamental_div_mod(a, p);
    vstd::arithmetic::div_mod::lemma_mod_pos_bound(a, p);
    assert(a == p * q + r);
    assert(q >= 0) by (nonlinear_arith)
        requires
            a >= 0,
            p > 0,
            a == p * q + r,
            0 <= r < p,
    ;
    let up = 2 * r >= p;
    let q2 = if up {
        q + 1
    } else {
        q
    };
    assert(q2 <= a) by (nonlinear_arith)
        requires
            a == p * q + r,
            0 <= r < p,
            p >= 10,
            q >= 0,
            q2 == (if 2 * r >= p {
                q + 1
            } else {
                q
            }),
    ;
    if m >= 0 {
        assert(q2 <= n) by (nonlinear_arith)
            requires
                m == p * q + r,
                0 <= r < p,
                m <= n * p,
                q2 == (if 2 * r >= p {
                    q + 1
                } else {
                    q
                }),
                p > 0,
        ;
    } else {
        assert(-q <= n) by (nonlinear_arith)
            requires
                -m == p * q + r,
                0 <= r < p,
                m <= n * p,
                p > 0,
        ;
    }
}

/// Rounding to cents keeps a value at or below a bound that is a whole
/// number of cents.
pub proof fn lemma_round2_le_whole_cents(x: Dec, bound: Dec)
    requires
        x.wf(),
        x.units() <= bound.units(),
        whole_cents(bound),
    ensures
        round_half_away(x, 2).units() <= bound.units(),
        round_half_away(x, 2).wf(),
{
    if x.scale > 2 {
        let k = (x.scale - 2) as nat;
        let m = x.mantissa as int;
        let c = pow10(26) as int;
        lemma_pow10_pos(26);
        let n = bound.units() / c;
        vstd::arithmetic::div_mod::lemma_fundamental_div_mod(bound.units(), c);
        assert(bound.units() == c * n);
        lemma_pow10_add((26 - k) as nat, k);
        assert(((26 - k) as nat + k) as nat == 26);
        let e = pow10((26 - k) as nat) as int;
        let pk = pow10(k) as int;
        lemma_pow10_pos((26 - k) as nat);
        assert(c == e * pk);
        assert((28 - x.scale) as nat == (26 - k) as nat);
        assert(x.units() == m * e);
        assert(m <= n * pk) by (nonlinear_arith)
            requires
                m * e <= c * n,
                c == e * pk,
                e > 0,
        ;
        lemma_div_round_bounds(m, k, n);
        let q2 = div_round_half_away(m, k);
        assert(q2 * c <= n * c) by (nonlinear_arith)
            requires
                q2 <= n,
                c > 0,
        ;
    }
}

/// Rounding keeps a non-negative value non-negative.
pub proof fn lemma_round_nonneg(x: Dec, dp: u32)
    requires
        x.wf(),
        x.mantissa >= 0,
        dp <= 28,
    ensures
        round_half_away(x, dp).mantissa >= 0,
        round_half_away(x, dp).units() >= 0,
{
    if x.scale > dp {
        let k = (x.scale - dp) as nat;
        let m = x.mantissa as int;
        lemma_pow10_pos(k);
        assert(m <= m * pow10(k)) by (nonlinear_arith)
            requires
                m >= 0,
                pow10(k) >= 1,
        ;
        lemma_div_round_bounds(m, k, m);
    }
    lemma_pow10_pos((28 - round_half_away(x, dp).scale) as nat);
    let r = round_half_away(x, dp);
    assert(r.mantissa * pow10((28 - r.scale) as nat) >= 0) by (nonlinear_arith)
        requires
            r.mantissa >= 0,
            pow10((28 - r.scale) as nat) >= 1,
    ;
}

/// The integer part of a decimal, read off its value.
pub proof fn lemma_trunc_int_units(d: Dec)
    requires
        d.wf(),
    ensures
        trunc_int(d) == (if d.units() < 0 {
            -((-d.units()) / (pow10(28) as int))
        } else {
            d.units() / (pow10(28) as int)
        }),
{
    let s = d.scale as nat;
    let e = pow10((28 - s) as nat) as int;
    let p = pow10(s) as int;
    lemma_pow10_pos((28 - s) as nat);
    lemma_pow10_pos(s);
    lemma_pow10_add((28 - s) as nat, s);
    assert(((28 - s) as nat + s) as nat == 28);
    assert(pow10(28) as int == e * p);
    let a = abs(d.mantissa as int);
    assert(abs(d.units()) == a * e) by (nonlinear_arith)
        requires
            d.units() == d.mantissa * e,
            a == abs(d.mantissa as int),
            e > 0,
    ;
    vstd::arithmetic::div_mod::lemma_div_denominator(a * e, e, p);
    vstd::arithmetic::div_mod::lemma_div_multiples_vanish(a, e);
    assert((a * e) / e == a) by {
        assert(a * e == e * a) by (nonlinear_arith);
    }
    lemma_units_sign(d);
}

/// Rounding a decimal whose value is the integer `v` to no fractional
/// digits gives `v` at scale zero.
pub proof fn lemma_round_even_integral(d: Dec, v: int)
    requires
        d.wf(),
        d.units() == v * pow10(28),
    ensures
        round_half_even(d, 0).mantissa == v,
        round_half_even(d, 0).scale == 0,
        abs(v) <= abs(d.mantissa as int),
{
    let s = d.scale as nat;
    let e = pow10((28 - s) as nat) as int;
    let p = pow10(s) as int;
    lemma_pow10_pos((28 - s) as nat);
    lemma_pow10_pos(s);
    lemma_pow10_add((28 - s) as nat, s);
    assert(((28 - s) as nat + s) as nat == 28);
    assert(d.mantissa * e == v * p * e) by (nonlinear_arith)
        requires
            d.mantissa * e == v * pow10(28),
            pow10(28) == e * p,
    ;
    assert(d.mantissa == v * p) by (nonlinear_arith)
        requires
            d.mantissa * e == v * p * e,
            e > 0,
    ;
    assert(abs(v) <= abs(d.mantissa as int)) by (nonlinear_arith)
        requires
            d.mantissa == v * p,
            p >= 1,
    ;
    if s > 0 {
        let a = abs(d.mantissa as int);
        assert(a == abs(v) * p) by (nonlinear_arith)
            requires
                d.mantissa == v * p,
                a == abs(d.mantissa as int),
                p >= 1,
        ;
        vstd::arithmetic::div_mod::lemma_div_multiples_vanish(abs(v), p);
        vstd::arithmetic::div_mod::lemma_mod_multiples_basic(abs(v), p);
        assert(abs(v) * p == p * abs(v)) by (nonlinear_arith);
        assert(a / p == abs(v));
        assert(a % p == 0);
        assert((d.scale - 0u32) as nat == s);
        assert(div_round_half_even(d.mantissa as int, s) == v) by {
            if d.mantissa < 0 {
                assert(v < 0) by (nonlinear_arith)
                    requires
                        d.mantissa == v * p,
                        d.mantissa < 0,
                        p >= 1,
                ;
            } else {
                assert(v >= 0) by (nonlinear_arith)
                    requires
                        d.mantissa == v * p,
                        d.mantissa >= 0,
                        p >= 1,
                ;
            }
        }
        assert(-max_mantissa() <= v <= max_mantissa());
        assert((v as i128) as int == v);
    } else {
        assert(p == 1);
        assert(v * p == v) by (nonlinear_arith)
            requires
                p == 1,
        ;
        assert(d.mantissa == v);
    }
}

/// The value of a literal decimal.
pub proof fn lemma_lit_units(m: int, s: nat)
    requires
        -max_mantissa() <= m <= max_mantissa(),
        s <= 28,
    ensures
        lit(m, s).units() == m * pow10((28 - s) as nat),
        lit(m, s).wf(),
        lit(m, s).mantissa == m,
        lit(m, s).scale == s,
{
}


// ---------------------------------------------------------------------
// Amounts of a few decimals: sums and products that are known to succeed
// ---------------------------------------------------------------------

/// A valid decimal with at most three decimals whose value is at most `v`
/// units (of 10^-28) in magnitude.
pub open spec fn amount_within(d: Dec, v: int) -> bool {
    d.wf() && d.scale <= 3 && abs(d.units()) <= v
}

/// The powers of ten from 10^25 to 10^28.
pub proof fn lemma_pow10_high()
    ensures
        pow10(25) == 10000000000000000000000000,
        pow10(26) == 100000000000000000000000000,
        pow10(27) == 1000000000000000000000000000,
        pow10(28) == 10000000000000000000000000000,
{
    reveal_with_fuel(pow10, 6);
    assert(pow10(5) == 100000);
    lemma_pow10_add(5, 5);
    assert(pow10(10) == 10000000000);
    lemma_pow10_add(10, 10);
    assert(pow10(20) == 100000000000000000000);
    lemma_pow10_add(20, 5);
    assert(pow10(25) == 10000000000000000000000000);
    assert(pow10(26) == 10 * pow10(25));
    assert(pow10(27) == 10 * pow10(26));
    assert(pow10(28) == 10 * pow10(27));
}

/// A decimal with at most three decimals: its value in units is its
/// mantissa times 10^(28 - scale), one of four powers.
pub proof fn lemma_units_at_most_three(d: Dec)
    requires
        d.scale <= 3,
    ensures
        d.scale == 0 ==> d.units() == d.mantissa * 10000000000000000000000000000,
        d.scale == 1 ==> d.units() == d.mantissa * 1000000000000000000000000000,
        d.scale == 2 ==> d.units() == d.mantissa * 100000000000000000000000000,
        d.scale == 3 ==> d.units() == d.mantissa * 10000000000000000000000000,
{
    lemma_pow10_high();
}

/// Every value of at most 10^53 units fits at a scale of at most three.
pub proof fn lemma_fits_small(u: int, s: nat)
    requires
        s <= 3,
        abs(u) <= 100000000000000000000000000000000000000000000000000000int,
    ensures
        fits_at(u, s),
{
    lemma_pow10_high();
    let p = pow10((28 - s) as nat);
    assert(p >= 10000000000000000000000000) by {
        if s == 0 {
        } else if s == 1 {
        } else if s == 2 {
        } else {
        }
    }
    assert(max_mantissa() * p >= 100000000000000000000000000000000000000000000000000000int) by (nonlinear_arith)
        requires
            p >= 10000000000000000000000000,
            max_mantissa() == 79228162514264337593543950335,
    ;
}

/// An amount within `v` units with at most two decimals.
pub open spec fn amount_within2(d: Dec, v: int) -> bool {
    amount_within(d, v) && d.scale <= 2
}

/// `checked_add`, with what is known when both amounts are within bounds
/// whose sum is at most 10^53 units: the sum succeeds, is within the sum
/// of the bounds, and has at most two decimals when both amounts do.
pub(crate) fn add_within(a: Dec, b: Dec, Ghost(va): Ghost<int>, Ghost(vb): Ghost<int>) -> (r: Option<Dec>)
    requires
        a.wf(),
        b.wf(),
    ensures
        r == dec_checked_add(a, b),
        result_wf(r),
        (amount_within(a, va) && amount_within(b, vb) && va + vb <= 100000000000000000000000000000000000000000000000000000int) ==> (r is Some
            && amount_within(r->0, va + vb) && (a.scale <= 2 && b.scale <= 2 ==> r->0.scale <= 2)),
{
    let r = checked_add(a, b);
    proof {
        if amount_within(a, va) && amount_within(b, vb) && va + vb <= 100000000000000000000000000000000000000000000000000000int {
            let s = larger_scale(a, b) as nat;
            lemma_fits_small(a.units(), s);
            lemma_fits_small(b.units(), s);
            lemma_fits_small(a.units() + b.units(), s);
        }
    }
    r
}

/// `checked_sub`, with what is known when both amounts are within bounds
/// whose sum is at most 10^53 units: the difference succeeds, is within the
/// sum of the bounds, and has at most two decimals when both amounts do.
pub(crate) fn sub_within(a: Dec, b: Dec, Ghost(va): Ghost<int>, Ghost(vb): Ghost<int>) -> (r: Option<Dec>)
    requires
        a.wf(),
        b.wf(),
    ensures
        r == dec_checked_sub(a, b),
        result_wf(r),
        (amount_within(a, va) && amount_within(b, vb) && va + vb <= 100000000000000000000000000000000000000000000000000000int) ==> (r is Some
            && amount_within(r->0, va + vb) && (a.scale <= 2 && b.scale <= 2 ==> r->0.scale <= 2)),
{
    let r = checked_sub(a, b);
    proof {
        if amount_within(a, va) && amount_within(b, vb) && va + vb <= 100000000000000000000000000000000000000000000000000000int {
            let s = larger_scale(a, b) as nat;
            lemma_fits_small(a.units(), s);
            lemma_fits_small(b.units(), s);
            lemma_fits_small(a.units() - b.units(), s);
            if a.mantissa == 0 {
                let rr = r->0;
                assert(rr.units() == -b.units()) by (nonlinear_arith)
                    requires
                        rr.mantissa == -b.mantissa,
                        rr.scale == b.scale,
                        rr.units() == rr.mantissa * pow10((28 - rr.scale) as nat),
                        b.units() == b.mantissa * pow10((28 - b.scale) as nat),
                ;
            }
        }
    }
    r
}

/// `checked_mul` by a factor of at most 14 with at most one decimal, with
/// what is known when the amount is within a bound of at most 10^51 units
/// and the scales add up to at most three: the product succeeds and is
/// within the bound times the factor's mantissa.
pub(crate) fn mul_within(a: Dec, f: Dec, Ghost(va): Ghost<int>) -> (r: Option<Dec>)
    requires
        a.wf(),
        f.wf(),
        f.scale <= 1,
        0 <= f.mantissa <= 14,
    ensures
        r == dec_checked_mul(a, f),
        result_wf(r),
        (amount_within(a, va) && a.scale + f.scale <= 3 && va
            <= 1000000000000000000000000000000000000000000000000000int) ==> (r is Some
            && amount_within(r->0, va * f.mantissa)),
{
    let r = checked_mul(a, f);
    proof {
        if amount_within(a, va) && a.scale + f.scale <= 3 && va
            <= 1000000000000000000000000000000000000000000000000000int && a.mantissa != 0
            && f.mantissa != 0 {
            lemma_pow10_high();
            lemma_units_at_most_three(a);
            let am = a.mantissa as int;
            let fm = f.mantissa as int;
            let p = pow10((28 - a.scale) as nat);
            let q = pow10((28 - (a.scale + f.scale)) as nat);
            assert(p >= 10000000000000000000000000) by {
                if a.scale == 0 {
                } else if a.scale == 1 {
                } else {
                }
            }
            assert(a.units() == am * p);
            assert(abs(am) * p <= va) by (nonlinear_arith)
                requires
                    abs(am * p) <= va,
                    p >= 1,
            ;
            assert(abs(am) <= 100000000000000000000000000) by (nonlinear_arith)
                requires
                    abs(am) * p <= va,
                    p >= 10000000000000000000000000,
                    va <= 1000000000000000000000000000000000000000000000000000int,
            ;
            assert(abs(am * fm) <= max_mantissa()) by (nonlinear_arith)
                requires
                    abs(am) <= 100000000000000000000000000,
                    0 < fm <= 14,
                    max_mantissa() == 79228162514264337593543950335,
            ;
            assert(q <= p && q >= 1) by {
                lemma_pow10_pos((28 - (a.scale + f.scale)) as nat);
                if f.scale == 1 {
                    assert(p == 10 * q);
                }
            }
            let rr = r->0;
            assert(rr.units() == am * fm * q);
            assert(abs(am * fm * q) <= va * fm) by (nonlinear_arith)
                requires
                    abs(am) * p <= va,
                    q <= p,
                    q >= 1,
                    0 < fm <= 14,
            ;
        }
    }
    r
}


/// An ordinary amount: at most two decimals and at most 10^13 in magnitude
/// (10^15 cents).
pub open spec fn ordinary_amount(d: Dec) -> bool {
    d.wf() && d.scale <= 2 && -1000000000000000 <= d.mantissa <= 1000000000000000
}

/// An ordinary amount is within 10^43 units.
pub proof fn lemma_ordinary_within(d: Dec)
    requires
        ordinary_amount(d),
    ensures
        amount_within(d, 10000000000000000000000000000000000000000000int),
{
    lemma_units_at_most_three(d);
}

// ---------------------------------------------------------------------
// rust_decimal's checked arithmetic as `checked_add`, `checked_sub` and
// `checked_mul` state it, for laws over the named results
// ---------------------------------------------------------------------

/// What `checked_add` states of the sum of `a` and `b`.
pub open spec fn adds_as_stated_at(a: Dec, b: Dec) -> bool {
    &&& result_wf(dec_checked_add(a, b))
    &&& a.mantissa == 0 ==> dec_checked_add(a, b) == Some(b)
    &&& (a.mantissa != 0 && b.mantissa == 0) ==> dec_checked_add(a, b) == Some(a)
    &&& (a.mantissa != 0 && b.mantissa != 0 && aligned_fit(a, b, a.units() + b.units())) ==> (
    dec_checked_add(a, b) is Some && dec_checked_add(a, b)->0.units() == a.units() + b.units()
        && dec_checked_add(a, b)->0.scale == larger_scale(a, b))
}

/// What `checked_sub` states of the difference of `a` and `b`.
pub open spec fn subtracts_as_stated_at(a: Dec, b: Dec) -> bool {
    &&& result_wf(dec_checked_sub(a, b))
    &&& a.mantissa == 0 ==> (dec_checked_sub(a, b) is Some && dec_checked_sub(a, b)->0.mantissa
        == -b.mantissa && dec_checked_sub(a, b)->0.scale == b.scale)
    &&& (a.mantissa != 0 && b.mantissa == 0) ==> dec_checked_sub(a, b) == Some(a)
    &&& (a.mantissa != 0 && b.mantissa != 0 && aligned_fit(a, b, a.units() - b.units())) ==> (
    dec_checked_sub(a, b) is Some && dec_checked_sub(a, b)->0.units() == a.units() - b.units()
        && dec_checked_sub(a, b)->0.scale == larger_scale(a, b))
}

/// What `checked_mul` states of the product of `a` and `b`.
pub open spec fn multiplies_as_stated_at(a: Dec, b: Dec) -> bool {
    &&& result_wf(dec_checked_mul(a, b))
    &&& (a.mantissa == 0 || b.mantissa == 0) ==> dec_checked_mul(a, b) == Some(
        Dec { mantissa: 0, scale: 0 },
    )
    &&& (a.mantissa != 0 && b.mantissa != 0 && a.scale + b.scale <= 28 && abs(
        a.mantissa * b.mantissa,
    ) <= max_mantissa()) ==> (dec_checked_mul(a, b) is Some && dec_checked_mul(a, b)->0.mantissa
        == a.mantissa * b.mantissa && dec_checked_mul(a, b)->0.scale == a.scale + b.scale)
}

/// rust_decimal adds, subtracts and multiplies every pair of valid decimals
/// as `checked_add`, `checked_sub` and `checked_mul` state.
pub open spec fn arithmetic_as_stated() -> bool {
    &&& forall|a: Dec, b: Dec| a.wf() && b.wf() ==> #[trigger] adds_as_stated_at(a, b)
    &&& forall|a: Dec, b: Dec| a.wf() && b.wf() ==> #[trigger] subtracts_as_stated_at(a, b)
    &&& forall|a: Dec, b: Dec| a.wf() && b.wf() ==> #[trigger] multiplies_as_stated_at(a, b)
}

/// Where rust_decimal adds as stated, two amounts of at most three decimals
/// within bounds whose sum is at most 10^53 units add exactly.
pub proof fn lemma_exact_add(a: Dec, b: Dec, va: int, vb: int)
    requires
        arithmetic_as_stated(),
        amount_within(a, va),
        amount_within(b, vb),
        va + vb <= 100000000000000000000000000000000000000000000000000000int,
    ensures
        dec_checked_add(a, b) is Some,
        dec_checked_add(a, b)->0.units() == a.units() + b.units(),
        amount_within(dec_checked_add(a, b)->0, va + vb),
{
    assert(adds_as_stated_at(a, b));
    let s = larger_scale(a, b) as nat;
    lemma_fits_small(a.units(), s);
    lemma_fits_small(b.units(), s);
    lemma_fits_small(a.units() + b.units(), s);
    lemma_units_sign(a);
    lemma_units_sign(b);
}

/// Where rust_decimal subtracts as stated, two amounts of at most three
/// decimals within bounds whose sum is at most 10^53 units subtract exactly.
pub proof fn lemma_exact_sub(a: Dec, b: Dec, va: int, vb: int)
    requires
        arithmetic_as_stated(),
        amount_within(a, va),
        amount_within(b, vb),
        va + vb <= 100000000000000000000000000000000000000000000000000000int,
    ensures
        dec_checked_sub(a, b) is Some,
        dec_checked_sub(a, b)->0.units() == a.units() - b.units(),
        amount_within(dec_checked_sub(a, b)->0, va + vb),
{
    assert(subtracts_as_stated_at(a, b));
    let s = larger_scale(a, b) as nat;
    lemma_fits_small(a.units(), s);
    lemma_fits_small(b.units(), s);
    lemma_fits_small(a.units() - b.units(), s);
    lemma_units_sign(a);
    lemma_units_sign(b);
    if a.mantissa == 0 {
        let rr = dec_checked_sub(a, b)->0;
        assert(rr.units() == -b.units()) by (nonlinear_arith)
            requires
                rr.mantissa == -b.mantissa,
                rr.scale == b.scale,
                rr.units() == rr.mantissa * pow10((28 - rr.scale) as nat),
                b.units() == b.mantissa * pow10((28 - b.scale) as nat),
        ;
    }
}

/// The exact sum of the values of a sequence of decimals, in units.
pub open spec fn units_sum(xs: Seq<Dec>) -> int
    decreases xs.len(),
{
    if xs.len() == 0 {
        0
    } else {
        units_sum(xs.drop_last()) + xs.last().units()
    }
}

/// Where rust_decimal adds as stated, adding up `n` amounts of at most three
/// decimals, each within `v` units and `n × v` at most 10^53, is exact.
pub proof fn lemma_exact_sum_of(xs: Seq<Dec>, v: int)
    requires
        arithmetic_as_stated(),
        0 <= v,
        forall|i: int| 0 <= i < xs.len() ==> amount_within(#[trigger] xs[i], v),
        xs.len() * v <= 100000000000000000000000000000000000000000000000000000int,
    ensures
        sum_of(xs) is Some,
        sum_of(xs)->0.units() == units_sum(xs),
        amount_within(sum_of(xs)->0, xs.len() * v),
    decreases xs.len(),
{
    if xs.len() > 0 {
        let n = xs.len() as int;
        let head = xs.drop_last();
        assert forall|i: int| 0 <= i < head.len() implies amount_within(#[trigger] head[i], v) by {
            assert(head[i] == xs[i]);
        }
        assert((n - 1) * v <= n * v) by (nonlinear_arith)
            requires
                v >= 0,
        ;
        lemma_exact_sum_of(head, v);
        assert(amount_within(xs[n - 1], v));
        assert((n - 1) * v + v == n * v) by (nonlinear_arith);
        lemma_exact_add(sum_of(head)->0, xs.last(), (n - 1) * v, v);
    } else {
        assert(zero_dec().units() == 0);
    }
}


} // verus!

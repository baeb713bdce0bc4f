//! Money stored as whole cents.
use vstd::prelude::*;
use crate::decimal::{
    Dec, checked_mul, dec_display_text, dec_fixed2_text, display_text, fixed2_text, lemma_lit_units,
    lemma_pow10_add,
    lemma_pow10_pos, lemma_round_even_integral, lemma_units_sign, lit, max_mantissa, pow10,
    round_dp_even, round_half_even, to_i64, trunc_int,
};
use crate::text::{i64_text, int_text, push_str, to_owned_string};

verus! {

/// Why an amount cannot be stored as cents.
#[derive(Debug, Clone, Copy, PartialEq, Eq, Structural)]
pub enum CurrencyError {
    Negative(Dec),
    Overflow(Dec),
    InvalidScale,
}

impl CurrencyError {
    /// The amount an error carries is a well-formed decimal.
    pub open spec fn payload_wf(self) -> bool {
        match self {
            CurrencyError::Negative(d) => d.wf(),
            CurrencyError::Overflow(d) => d.wf(),
            CurrencyError::InvalidScale => true,
        }
    }

    pub open spec fn message_text(self) -> Seq<char> {
        match self {
            CurrencyError::Negative(d) => "Negative currency value: "@ + dec_display_text(d),
            CurrencyError::Overflow(d) => "Value too large for i64 cents representation: "@
                + dec_display_text(d),
            CurrencyError::InvalidScale => "Invalid currency scale (must have 2 or fewer decimal places)"@,
        }
    }

    /// The text of the error.
    pub fn message(&self) -> (r: String)
        requires
            match *self {
                CurrencyError::Negative(d) => d.wf(),
                CurrencyError::Overflow(d) => d.wf(),
                CurrencyError::InvalidScale => true,
            },
        ensures
            r@ == self.message_text(),
    {
        match self {
            CurrencyError::Negative(d) => {
                let mut out = to_owned_string("Negative currency value: ");
                let t = display_text(*d);
                push_str(&mut out, t.as_str());
                out
            },
            CurrencyError::Overflow(d) => {
                let mut out = to_owned_string("Value too large for i64 cents representation: ");
                let t = display_text(*d);
                push_str(&mut out, t.as_str());
                out
            },
            CurrencyError::InvalidScale => to_owned_string(
                "Invalid currency scale (must have 2 or fewer decimal places)",
            ),
        }
    }
}

/// What `validate_currency` refuses: a negative amount, a positive one
/// below a cent or above ten million, or more than two decimal places.
pub open spec fn currency_issue(v: Dec) -> Option<CurrencyError> {
    if v.units() < 0 {
        Some(CurrencyError::Negative(v))
    } else if v.units() > lit(0, 1).units() && (v.units() < lit(1, 2).units() || lit(
        1000000000,
        2,
    ).units() < v.units()) {
        Some(CurrencyError::Overflow(v))
    } else if v.scale > 2 {
        Some(CurrencyError::InvalidScale)
    } else {
        None
    }
}

pub fn validate_currency(value: &Dec) -> (r: Result<(), CurrencyError>)
    requires
        value.wf(),
    ensures
        match currency_issue(*value) {
            None => r is Ok,
            Some(e) => r == Err::<(), CurrencyError>(e),
        },
{
    if crate::decimal::dec_lt(*value, Dec::zero()) {
        return Err(CurrencyError::Negative(*value));
    }
    if crate::decimal::dec_lt(Dec::new(0, 1), *value) && (crate::decimal::dec_lt(
        *value,
        Dec::new(1, 2),
    ) || crate::decimal::dec_lt(Dec::new(1000000000, 2), *value)) {
        return Err(CurrencyError::Overflow(*value));
    }
    if value.scale > 2 {
        return Err(CurrencyError::InvalidScale);
    }
    Ok(())
}

/// The number of whole cents of an amount with at most two decimals.
pub open spec fn cents_of(v: Dec) -> int {
    v.units() / (pow10(26) as int)
}

/// An amount with at most two decimals is its cents times 10^26 units,
/// and times one hundred it is its cents as a whole number.
proof fn lemma_cents_parts(d: Dec)
    requires
        d.wf(),
        d.scale <= 2,
    ensures
        d.units() == cents_of(d) * pow10(26),
        cents_of(d) == d.mantissa * pow10((2 - d.scale) as nat),
        (d.mantissa * 100) * pow10((28 - d.scale) as nat) == cents_of(d) * pow10(28),
        d.mantissa >= 0 ==> d.mantissa <= cents_of(d),
        d.mantissa < 0 ==> cents_of(d) <= d.mantissa,
{
    let s = d.scale as nat;
    let k = (2 - s) as nat;
    lemma_pow10_add(26, k);
    assert((26 + k) as nat == (28 - s) as nat);
    lemma_pow10_add(26, 2);
    assert(pow10(2) == 100) by {
        assert(pow10(0) == 1);
        assert(pow10(1) == 10);
    }
    lemma_pow10_pos(26);
    lemma_pow10_pos(k);
    let v = d.mantissa * pow10(k);
    assert(d.units() == v * pow10(26)) by (nonlinear_arith)
        requires
            d.units() == d.mantissa * pow10((28 - s) as nat),
            pow10((28 - s) as nat) == pow10(26) * pow10(k),
            v == d.mantissa * pow10(k),
    ;
    vstd::arithmetic::div_mod::lemma_div_multiples_vanish(v, pow10(26) as int);
    assert(v * pow10(26) == pow10(26) * v) by (nonlinear_arith);
    assert((d.mantissa * 100) * pow10((28 - s) as nat) == v * pow10(28)) by (nonlinear_arith)
        requires
            pow10((28 - s) as nat) == pow10(26) * pow10(k),
            pow10(28) == pow10(26) * 100,
            v == d.mantissa * pow10(k),
    ;
    assert(d.mantissa >= 0 ==> d.mantissa <= v) by (nonlinear_arith)
        requires
            v == d.mantissa * pow10(k),
            pow10(k) >= 1,
    ;
    assert(d.mantissa < 0 ==> v <= d.mantissa) by (nonlinear_arith)
        requires
            v == d.mantissa * pow10(k),
            pow10(k) >= 1,
    ;
}

/// The whole cents of an amount rounded (half to even) to two decimals,
/// once that rounded amount is a valid currency value.
pub open spec fn decimal_to_cents_spec(v: Dec) -> Result<i64, CurrencyError> {
    let r = round_half_even(v, 2);
    match currency_issue(r) {
        Some(e) => Err(e),
        None => Ok(cents_of(r) as i64),
    }
}

/// The whole cents of an amount rounded (half to even) to two decimals,
/// negative amounts included; an overflow when they do not fit an `i64`.
pub open spec fn decimal_to_cents_signed_spec(v: Dec) -> Result<i64, CurrencyError> {
    let r = round_half_even(v, 2);
    if r.scale > 2 {
        Err(CurrencyError::InvalidScale)
    } else if i64::MIN <= cents_of(r) <= i64::MAX {
        Ok(cents_of(r) as i64)
    } else {
        Err(CurrencyError::Overflow(r))
    }
}

/// Multiplies a rounded amount by one hundred and reads the whole number
/// of cents, when that number is known to fit.
fn whole_cents_of(rounded: Dec) -> (r: Option<i64>)
    requires
        rounded.wf(),
        rounded.scale <= 2,
        i64::MIN <= cents_of(rounded) <= i64::MAX,
    ensures
        r == Some(cents_of(rounded) as i64),
{
    proof {
        lemma_cents_parts(rounded);
        assert(-max_mantissa() <= rounded.mantissa * 100 <= max_mantissa());
    }
    let product = checked_mul(rounded, Dec::new(100, 0))?;
    proof {
        assert(product.units() == (rounded.mantissa * 100) * pow10((28 - (rounded.scale + 0)) as nat));
        lemma_round_even_integral(product, cents_of(rounded));
    }
    let cents = round_dp_even(product, 0);
    proof {
        assert(trunc_int(cents) == cents_of(rounded)) by {
            assert(pow10(0) == 1);
            assert(cents.scale == 0);
        }
    }
    to_i64(cents)
}

/// An amount as whole cents, for storage.
pub fn decimal_to_cents(value: &Dec) -> (r: Result<i64, CurrencyError>)
    requires
        value.wf(),
    ensures
        r == decimal_to_cents_spec(*value),
        r matches Err(e) ==> e.payload_wf(),
{
    let rounded = round_dp_even(*value, 2);
    validate_currency(&rounded)?;
    proof {
        lemma_lit_units(1000000000, 2);
        lemma_lit_units(0, 1);
        lemma_lit_units(1, 2);
        lemma_cents_parts(rounded);
        lemma_pow10_pos(26);
        assert(cents_of(rounded) <= 1000000000) by (nonlinear_arith)
            requires
                rounded.units() == cents_of(rounded) * pow10(26),
                rounded.units() <= 1000000000 * pow10(26),
                pow10(26) >= 1,
        ;
        assert(cents_of(rounded) >= 0) by (nonlinear_arith)
            requires
                rounded.units() == cents_of(rounded) * pow10(26),
                rounded.units() >= 0,
                pow10(26) >= 1,
        ;
    }
    match whole_cents_of(rounded) {
        Some(c) => Ok(c),
        None => Err(CurrencyError::Overflow(rounded)),
    }
}

/// An amount as whole cents, negative amounts allowed.
pub fn decimal_to_cents_signed(value: &Dec) -> (r: Result<i64, CurrencyError>)
    requires
        value.wf(),
    ensures
        r == decimal_to_cents_signed_spec(*value),
        r matches Err(e) ==> e.payload_wf(),
{
    let rounded = round_dp_even(*value, 2);
    if rounded.scale > 2 {
        return Err(CurrencyError::InvalidScale);
    }
    proof {
        lemma_cents_parts(rounded);
    }
    proof {
        assert(pow10(0) == 1);
        assert(pow10(1) == 10);
        assert(pow10(2) == 100);
    }
    let cents_wide: i128 = if rounded.scale == 0 {
        assert(cents_of(rounded) == rounded.mantissa * pow10(2));
        rounded.mantissa * 100
    } else if rounded.scale == 1 {
        assert(cents_of(rounded) == rounded.mantissa * pow10(1));
        rounded.mantissa * 10
    } else {
        assert(cents_of(rounded) == rounded.mantissa * pow10(0));
        rounded.mantissa
    };
    if cents_wide < -9223372036854775808 || cents_wide > 9223372036854775807 {
        return Err(CurrencyError::Overflow(rounded));
    }
    match whole_cents_of(rounded) {
        Some(c) => Ok(c),
        None => Err(CurrencyError::Overflow(rounded)),
    }
}

/// Whole cents as an amount; negative cents are refused.
pub fn cents_to_decimal(cents: i64) -> (r: Result<Dec, CurrencyError>)
    ensures
        cents < 0 ==> r == Err::<Dec, CurrencyError>(CurrencyError::Negative(lit(cents as int, 2))),
        cents >= 0 ==> r == Ok::<Dec, CurrencyError>(lit(cents as int, 2)),
        r matches Ok(d) ==> d.wf(),
{
    if cents < 0 {
        return Err(CurrencyError::Negative(Dec::new(cents, 2)));
    }
    Ok(Dec::new(cents, 2))
}

/// Whole cents as an amount, negative cents allowed.
pub fn cents_to_decimal_signed(cents: i64) -> (r: Result<Dec, CurrencyError>)
    ensures
        r == Ok::<Dec, CurrencyError>(lit(cents as int, 2)),
        r matches Ok(d) ==> d.wf(),
{
    Ok(Dec::new(cents, 2))
}

/// An amount as `$` and two decimals.
pub fn format_currency(value: &Dec) -> (r: String)
    requires
        value.wf(),
    ensures
        r@ == "$"@ + dec_fixed2_text(*value),
{
    let mut out = to_owned_string("$");
    let t = fixed2_text(*value);
    push_str(&mut out, t.as_str());
    out
}

/// The message of a stored amount that could not be read back.
pub open spec fn field_error_text(field: Seq<char>, e: CurrencyError, cents: i64) -> Seq<char> {
    "Data error: '"@ + field + "' has an invalid value \u{2014} "@ + e.message_text()
        + " (stored as "@ + int_text(cents as int) + " cents)"@
}

/// Stored cents as an amount, with a message that names the field when
/// they are negative.
pub fn convert_cents(cents: i64, field: &str) -> (r: Result<Dec, String>)
    ensures
        cents >= 0 ==> (r matches Ok(d) && d == lit(cents as int, 2)),
        cents < 0 ==> (r matches Err(m) && m@ == field_error_text(
            field@,
            CurrencyError::Negative(lit(cents as int, 2)),
            cents,
        )),
{
    match cents_to_decimal(cents) {
        Ok(d) => Ok(d),
        Err(e) => {
            let mut msg = to_owned_string("Data error: '");
            push_str(&mut msg, field);
            push_str(&mut msg, "' has an invalid value \u{2014} ");
            let em = e.message();
            push_str(&mut msg, em.as_str());
            push_str(&mut msg, " (stored as ");
            let c = i64_text(cents);
            push_str(&mut msg, c.as_str());
            push_str(&mut msg, " cents)");
            Err(msg)
        },
    }
}

/// Stored cents as an amount, negative cents allowed.
pub fn convert_cents_signed(cents: i64, field: &str) -> (r: Result<Dec, String>)
    ensures
        r matches Ok(d) && d == lit(cents as int, 2),
{
    match cents_to_decimal_signed(cents) {
        Ok(d) => Ok(d),
        Err(e) => {
            let mut msg = to_owned_string("Data error: '");
            push_str(&mut msg, field);
            push_str(&mut msg, "' has an invalid value \u{2014} ");
            let em = e.message();
            push_str(&mut msg, em.as_str());
            push_str(&mut msg, " (stored as ");
            let c = i64_text(cents);
            push_str(&mut msg, c.as_str());
            push_str(&mut msg, " cents)");
            Err(msg)
        },
    }
}

/// Stored cents as an amount, with a message when they are negative.
pub fn try_cents(cents: i64) -> (r: Result<Dec, String>)
    ensures
        cents >= 0 ==> (r matches Ok(d) && d == lit(cents as int, 2)),
        cents < 0 ==> (r matches Err(m) && m@ == "Data error: "@ + CurrencyError::Negative(
            lit(cents as int, 2),
        ).message_text() + " (stored as "@ + int_text(cents as int) + " cents)"@),
{
    match cents_to_decimal(cents) {
        Ok(d) => Ok(d),
        Err(e) => {
            let mut msg = to_owned_string("Data error: ");
            let em = e.message();
            push_str(&mut msg, em.as_str());
            push_str(&mut msg, " (stored as ");
            let c = i64_text(cents);
            push_str(&mut msg, c.as_str());
            push_str(&mut msg, " cents)");
            Err(msg)
        },
    }
}

// ---------------------------------------------------------------------
// Laws
// ---------------------------------------------------------------------

/// Storing a valid amount of cents and reading it back gives the same
/// cents: for 0 to 1,000,000,000 cents (up to ten million dollars),
/// `decimal_to_cents(cents_to_decimal(c)) == c`.
pub proof fn law_cents_roundtrip(c: i64)
    requires
        0 <= c <= 1000000000,
    ensures
        decimal_to_cents_spec(lit(c as int, 2)) == Ok::<i64, CurrencyError>(c),
{
    let d = lit(c as int, 2);
    assert(round_half_even(d, 2) == d);
    lemma_cents_parts(d);
    lemma_pow10_pos(26);
    assert(pow10(0) == 1);
    assert(d.mantissa == c);
    assert(d.scale == 2);
    assert(cents_of(d) == d.mantissa * pow10((2 - d.scale) as nat));
    assert(cents_of(d) == c);
    lemma_lit_units(1, 2);
    lemma_lit_units(0, 1);
    lemma_lit_units(1000000000, 2);
    lemma_lit_units(c as int, 2);
    assert(d.units() == c * pow10(26));
    assert(c > 0 ==> pow10(26) <= c * pow10(26)) by (nonlinear_arith)
        requires
            pow10(26) >= 1,
    ;
    assert(c * pow10(26) <= 1000000000 * pow10(26)) by (nonlinear_arith)
        requires
            c <= 1000000000,
            pow10(26) >= 1,
    ;
    assert(c * pow10(26) >= 0) by (nonlinear_arith)
        requires
            c >= 0,
            pow10(26) >= 1,
    ;
    assert(lit(1, 2).units() == pow10(26));
    assert(lit(1000000000, 2).units() == 1000000000 * pow10(26));
    assert(lit(0, 1).units() == 0);
    assert(!(d.units() < 0));
    assert(d.units() > 0 ==> c > 0) by (nonlinear_arith)
        requires
            d.units() == c * pow10(26),
            c >= 0,
    ;
    assert(!(d.units() > 0 && d.units() < pow10(26)));
    assert(!(1000000000 * pow10(26) < d.units()));
    assert(!(d.scale > 2));
    assert(currency_issue(d) is None);
    assert(cents_of(round_half_even(d, 2)) == c);
}

/// Any cents, negative ones included, survive storing and reading back
/// with the signed conversions.
pub proof fn law_signed_cents_roundtrip(c: i64)
    ensures
        decimal_to_cents_signed_spec(lit(c as int, 2)) == Ok::<i64, CurrencyError>(c),
{
    let d = lit(c as int, 2);
    assert(d.wf());
    assert(round_half_even(d, 2) == d);
    lemma_cents_parts(d);
    assert(pow10(0) == 1);
    assert(cents_of(d) == c);
}

/// Storing an amount keeps its value up to rounding to cents: reading the
/// stored cents back gives the amount rounded (half to even) to two
/// decimals.
pub proof fn law_decimal_roundtrip(v: Dec)
    requires
        v.wf(),
    ensures
        decimal_to_cents_spec(v) matches Ok(c) ==> lit(c as int, 2).units() == round_half_even(
            v,
            2,
        ).units(),
{
    let r = round_half_even(v, 2);
    if decimal_to_cents_spec(v) is Ok {
        assert(r.scale <= 2);
        assert(r.wf()) by {
            if v.scale > 2 {
                lemma_cents_range(v);
            }
        }
        lemma_cents_parts(r);
        lemma_pow10_pos(26);
        lemma_lit_units(1000000000, 2);
        lemma_lit_units(0, 1);
        lemma_lit_units(1, 2);
        assert(0 <= cents_of(r) <= 1000000000) by (nonlinear_arith)
            requires
                r.units() == cents_of(r) * pow10(26),
                0 <= r.units() <= 1000000000 * pow10(26),
                pow10(26) >= 1,
        ;
        assert(lit(cents_of(r), 2).units() == cents_of(r) * pow10(26));
    }
}

/// Rounding to two decimals keeps the mantissa within range.
proof fn lemma_cents_range(v: Dec)
    requires
        v.wf(),
        v.scale > 2,
    ensures
        round_half_even(v, 2).wf(),
{
    let k = (v.scale - 2) as nat;
    let m = v.mantissa as int;
    let p = pow10(k) as int;
    crate::decimal::lemma_pow10_ge10(k);
    let a = crate::decimal::abs(m);
    vstd::arithmetic::div_mod::lemma_fundamental_div_mod(a, p);
    vstd::arithmetic::div_mod::lemma_mod_pos_bound(a, p);
    let q = a / p;
    let rr = a % p;
    assert(0 <= q && q + 1 <= a || a == 0 || q < a) by (nonlinear_arith)
        requires
            a == p * q + rr,
            0 <= rr < p,
            p >= 10,
            a >= 0,
    ;
    assert(q >= 0 && (rr > 0 ==> q + 1 <= a) && q <= a) by (nonlinear_arith)
        requires
            a == p * q + rr,
            0 <= rr < p,
            p >= 10,
            a >= 0,
    ;
}

} // verus!

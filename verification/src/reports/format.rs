//! Formatting of amounts, hours, SINs and addresses for reports.
use vstd::prelude::*;
use crate::decimal::{
    Dec, checked_mul, dec_checked_mul, dec_fixed2_text, fixed2_text, int_dec, round_dp_even,
    round_half_even, to_i64, trunc_int,
};
use crate::text::{
    ascii_digits, char_at, char_count, char_range, digits_of, i64_text, int_text, push_char,
    push_str, text_trim, to_owned_string, trim,
};

verus! {

/// The characters of `s` before its first `c` (all of `s` when it has none).
pub open spec fn before_first(s: Seq<char>, c: char) -> Seq<char>
    decreases s.len(),
{
    if s.len() == 0 || s[0] == c {
        Seq::empty()
    } else {
        seq![s[0]] + before_first(s.drop_first(), c)
    }
}

/// The characters after the first `c` of `s`, up to the next `c`.
pub open spec fn second_field(s: Seq<char>, c: char) -> Option<Seq<char>>
    decreases s.len(),
{
    if s.len() == 0 {
        None
    } else if s[0] == c {
        Some(before_first(s.drop_first(), c))
    } else {
        second_field(s.drop_first(), c)
    }
}

proof fn lemma_before_first_len(s: Seq<char>, c: char)
    ensures
        before_first(s, c).len() <= s.len(),
        forall|i: int| 0 <= i < before_first(s, c).len() ==> before_first(s, c)[i] == s[i],
        before_first(s, c).len() < s.len() ==> s[before_first(s, c).len() as int] == c,
        forall|i: int| 0 <= i < before_first(s, c).len() ==> s[i] != c,
    decreases s.len(),
{
    if s.len() > 0 && s[0] != c {
        lemma_before_first_len(s.drop_first(), c);
        let t = before_first(s.drop_first(), c);
        assert forall|i: int| 0 <= i < before_first(s, c).len() implies before_first(s, c)[i]
            == s[i] && s[i] != c by {
            if i > 0 {
                assert(before_first(s, c)[i] == t[i - 1]);
                assert(s.drop_first()[i - 1] == s[i]);
            }
        }
    }
}

/// The first field of `s` split at `c`.
fn first_field(s: &str, c: char) -> (r: String)
    ensures
        r@ == before_first(s@, c),
{
    let n = char_count(s);
    let mut i: usize = 0;
    while i < n && char_at(s, i) != c
        invariant
            n == s@.len(),
            i <= n,
            forall|j: int| 0 <= j < i ==> s@[j] != c,
        decreases n - i,
    {
        i = i + 1;
    }
    proof {
        lemma_before_first_prefix(s@, c, i as int);
    }
    char_range(s, 0, i)
}

proof fn lemma_before_first_prefix(s: Seq<char>, c: char, i: int)
    requires
        0 <= i <= s.len(),
        forall|j: int| 0 <= j < i ==> s[j] != c,
        i == s.len() || s[i] == c,
    ensures
        before_first(s, c) == s.subrange(0, i),
    decreases s.len(),
{
    if s.len() > 0 && s[0] != c {
        assert(i > 0);
        let t = s.drop_first();
        assert forall|j: int| 0 <= j < i - 1 implies t[j] != c by {
            assert(t[j] == s[j + 1]);
        }
        lemma_before_first_prefix(t, c, i - 1);
        assert(seq![s[0]] + t.subrange(0, i - 1) =~= s.subrange(0, i));
    } else if s.len() > 0 {
        assert(i == 0);
        assert(s.subrange(0, 0) =~= Seq::<char>::empty());
    } else {
        assert(s.subrange(0, i) =~= Seq::<char>::empty());
    }
}

/// The field after the first `c` of `s`, up to the next `c`.
fn field_after(s: &str, c: char) -> (r: Option<String>)
    ensures
        match second_field(s@, c) {
            None => r is None,
            Some(f) => r matches Some(t) && t@ == f,
        },
{
    let n = char_count(s);
    let mut i: usize = 0;
    proof {
        assert(s@.subrange(0, n as int) =~= s@);
    }
    while i < n && char_at(s, i) != c
        invariant
            n == s@.len(),
            i <= n,
            forall|j: int| 0 <= j < i ==> s@[j] != c,
            second_field(s@, c) == second_field(s@.subrange(i as int, n as int), c),
        decreases n - i,
    {
        proof {
            assert(s@.subrange(i as int, n as int).drop_first() =~= s@.subrange(i + 1, n as int));
        }
        i = i + 1;
    }
    if i == n {
        proof {
            assert(s@.subrange(n as int, n as int).len() == 0);
        }
        return None;
    }
    let rest = char_range(s, i + 1, n);
    proof {
        assert(s@.subrange(i as int, n as int).drop_first() =~= rest@);
    }
    Some(first_field(rest.as_str(), c))
}

/// The digits of `s` with a `,` after each digit that has a multiple of
/// three digits after it, counting from the right (the first `k` of them).
pub open spec fn grouped_upto(s: Seq<char>, k: int) -> Seq<char>
    decreases k,
{
    if k <= 0 {
        Seq::empty()
    } else {
        let prev = grouped_upto(s, k - 1);
        let pos = s.len() - k;
        let with_c = prev.push(s[k - 1]);
        if pos > 0 && pos % 3 == 0 {
            with_c.push(',')
        } else {
            with_c
        }
    }
}

pub open spec fn grouped(s: Seq<char>) -> Seq<char> {
    grouped_upto(s, s.len() as int)
}

/// A text of digits with thousands separators.
fn group_thousands(s: &str) -> (r: String)
    ensures
        r@ == grouped(s@),
{
    let n = char_count(s);
    let mut out = String::new();
    let mut i: usize = 0;
    while i < n
        invariant
            n == s@.len(),
            i <= n,
            out@ == grouped_upto(s@, i as int),
        decreases n - i,
    {
        push_char(&mut out, char_at(s, i));
        let pos = n - i - 1;
        if pos > 0 && pos % 3 == 0 {
            push_char(&mut out, ',');
        }
        i = i + 1;
    }
    out
}

/// An amount with two decimals and thousands separators: the integer
/// part of `format!("{:.2}")` grouped, then its fractional part.
pub open spec fn format_decimal_text(v: Dec) -> Seq<char> {
    let f = dec_fixed2_text(v);
    let dec_part = match second_field(f, '.') {
        Some(d) => d,
        None => "00"@,
    };
    grouped_signed(before_first(f, '.')) + "."@ + dec_part
}

/// A whole number's digits grouped by thousands, a leading `-` kept in
/// front of them.
pub open spec fn grouped_signed(s: Seq<char>) -> Seq<char> {
    if s.len() > 0 && s[0] == '-' {
        seq!['-'] + grouped(s.drop_first())
    } else {
        grouped(s)
    }
}

/// An amount for a report: two decimals with thousands separators.
pub fn format_decimal(value: Dec) -> (r: String)
    requires
        value.wf(),
    ensures
        r@ == format_decimal_text(value),
{
    let formatted = fixed2_text(value);
    let int_part = first_field(formatted.as_str(), '.');
    let dec_part = match field_after(formatted.as_str(), '.') {
        Some(d) => d,
        None => to_owned_string("00"),
    };
    let n = char_count(int_part.as_str());
    let mut out = if n > 0 && char_at(int_part.as_str(), 0) == '-' {
        let digits = char_range(int_part.as_str(), 1, n);
        proof {
            assert(digits@ =~= int_part@.drop_first());
        }
        let mut o = to_owned_string("-");
        let g = group_thousands(digits.as_str());
        push_str(&mut o, g.as_str());
        proof {
            reveal_strlit("-");
            assert(o@ =~= seq!['-'] + grouped(int_part@.drop_first()));
        }
        o
    } else {
        group_thousands(int_part.as_str())
    };
    push_str(&mut out, ".");
    push_str(&mut out, dec_part.as_str());
    out
}

/// Hours as `h:mm`, rounded (half to even) to the minute.
pub open spec fn hours_minutes(hours: Dec) -> Option<int> {
    match dec_checked_mul(hours, int_dec(60)) {
        None => None,
        Some(p) => {
            let t = trunc_int(round_half_even(p, 0));
            Some(
                if i64::MIN <= t <= i64::MAX {
                    t
                } else {
                    0
                },
            )
        },
    }
}

/// Two digits, with a leading zero below ten (`{:02}`); wider values as they are.
pub open spec fn two_digits(m: int) -> Seq<char> {
    if 0 <= m < 10 {
        "0"@ + int_text(m)
    } else {
        int_text(m)
    }
}

/// Hours as `h:mm` (`7.5` → `7:30`), rounded to the minute; `None`
/// where the minutes overflow.
pub fn format_hours_hhmm(hours: Dec) -> (r: Option<String>)
    requires
        hours.wf(),
    ensures
        match hours_minutes(hours) {
            None => r is None,
            Some(t) => r matches Some(s) && s@ == int_text(t / 60 + if t < 0 && t % 60 != 0 {
                1int
            } else {
                0int
            }) + ":"@ + two_digits(if t < 0 && t % 60 != 0 {
                t % 60 - 60
            } else {
                t % 60
            }),
        },
{
    let p = checked_mul(hours, Dec::from_int(60))?;
    let rounded = round_dp_even(p, 0);
    let total_minutes: i64 = match to_i64(rounded) {
        Some(v) => v,
        None => 0,
    };
    let h = total_minutes / 60;
    let m = total_minutes % 60;
    let mut out = i64_text(h);
    push_str(&mut out, ":");
    if 0 <= m && m < 10 {
        push_str(&mut out, "0");
    }
    let mt = i64_text(m);
    push_str(&mut out, mt.as_str());
    Some(out)
}

/// A SIN written `XXX XXX XXX` when it has nine digits; as it is otherwise.
pub open spec fn format_sin_text(sin: Seq<char>) -> Seq<char> {
    let d = digits_of(sin);
    if d.len() == 9 {
        d.subrange(0, 3) + " "@ + d.subrange(3, 6) + " "@ + d.subrange(6, 9)
    } else {
        sin
    }
}

pub fn format_sin(sin: &str) -> (r: String)
    ensures
        r@ == format_sin_text(sin@),
{
    let digits = ascii_digits(sin);
    if char_count(digits.as_str()) == 9 {
        let mut out = char_range(digits.as_str(), 0, 3);
        push_str(&mut out, " ");
        let mid = char_range(digits.as_str(), 3, 6);
        push_str(&mut out, mid.as_str());
        push_str(&mut out, " ");
        let last = char_range(digits.as_str(), 6, 9);
        push_str(&mut out, last.as_str());
        out
    } else {
        to_owned_string(sin)
    }
}

/// A SIN with all but its last three digits hidden.
pub open spec fn mask_sin_text(sin: Seq<char>) -> Seq<char> {
    let d = digits_of(sin);
    if d.len() >= 3 {
        "*** *** "@ + d.subrange(d.len() - 3, d.len() as int)
    } else {
        "*** *** ***"@
    }
}

pub fn mask_sin(sin: &str) -> (r: String)
    ensures
        r@ == mask_sin_text(sin@),
{
    let digits = ascii_digits(sin);
    let n = char_count(digits.as_str());
    if n >= 3 {
        let mut out = to_owned_string("*** *** ");
        let tail = char_range(digits.as_str(), n - 3, n);
        push_str(&mut out, tail.as_str());
        out
    } else {
        to_owned_string("*** *** ***")
    }
}

/// The first field of `s` split at `c`.
pub fn first_field_of(s: &str, c: char) -> (r: String)
    ensures
        r@ == before_first(s@, c),
{
    first_field(s, c)
}

/// The field after the first `c` of `s`, up to the next `c`.
pub fn field_after_of(s: &str, c: char) -> (r: Option<String>)
    ensures
        match second_field(s@, c) {
            None => r is None,
            Some(f) => r matches Some(t) && t@ == f,
        },
{
    field_after(s, c)
}

/// A text with thousands separators.
pub fn group_thousands_of(s: &str) -> (r: String)
    ensures
        r@ == grouped(s@),
{
    group_thousands(s)
}
/// `s` split at each `c`.
pub open spec fn split_fields(s: Seq<char>, c: char) -> Seq<Seq<char>>
    decreases s.len(),
{
    match second_field_rest(s, c) {
        None => seq![s],
        Some(rest) => {
            proof {
                lemma_rest_shorter(s, c);
            }
            seq![before_first(s, c)] + split_fields(rest, c)
        },
    }
}

/// What follows the first `c` of `s`, if it has one.
pub open spec fn second_field_rest(s: Seq<char>, c: char) -> Option<Seq<char>>
    decreases s.len(),
{
    if s.len() == 0 {
        None
    } else if s[0] == c {
        Some(s.drop_first())
    } else {
        second_field_rest(s.drop_first(), c)
    }
}

pub proof fn lemma_rest_shorter(s: Seq<char>, c: char)
    ensures
        second_field_rest(s, c) matches Some(r) ==> r.len() < s.len(),
    decreases s.len(),
{
    if s.len() > 0 && s[0] != c {
        lemma_rest_shorter(s.drop_first(), c);
    }
}

/// The fields, trimmed, without the empty ones.
pub open spec fn trimmed_nonempty(fields: Seq<Seq<char>>) -> Seq<Seq<char>>
    decreases fields.len(),
{
    if fields.len() == 0 {
        Seq::empty()
    } else {
        let t = text_trim(fields[0]);
        let rest = trimmed_nonempty(fields.drop_first());
        if t.len() > 0 {
            seq![t] + rest
        } else {
            rest
        }
    }
}

/// The lines of an address: split at line breaks when it has any, else at
/// commas; each trimmed; empty ones dropped.
pub open spec fn address_lines(address: Seq<char>) -> Seq<Seq<char>> {
    if address.contains('\n') {
        trimmed_nonempty(split_fields(address, '\n'))
    } else {
        trimmed_nonempty(split_fields(address, ','))
    }
}

pub open spec fn texts_of_strings(v: Seq<String>) -> Seq<Seq<char>> {
    v.map_values(|s: String| s@)
}

/// Whether `s` holds `c`.
fn holds_char(s: &str, c: char) -> (r: bool)
    ensures
        r == s@.contains(c),
{
    let n = char_count(s);
    let mut i: usize = 0;
    while i < n
        invariant
            n == s@.len(),
            i <= n,
            forall|j: int| 0 <= j < i ==> s@[j] != c,
        decreases n - i,
    {
        if char_at(s, i) == c {
            return true;
        }
        i = i + 1;
    }
    false
}

/// Rest of `s` after its first `c`.
fn rest_after(s: &str, c: char) -> (r: Option<String>)
    ensures
        match second_field_rest(s@, c) {
            None => r is None,
            Some(f) => r matches Some(t) && t@ == f,
        },
{
    let n = char_count(s);
    let mut i: usize = 0;
    proof {
        assert(s@.subrange(0, n as int) =~= s@);
    }
    while i < n && char_at(s, i) != c
        invariant
            n == s@.len(),
            i <= n,
            second_field_rest(s@, c) == second_field_rest(s@.subrange(i as int, n as int), c),
        decreases n - i,
    {
        proof {
            assert(s@.subrange(i as int, n as int).drop_first() =~= s@.subrange(i + 1, n as int));
        }
        i = i + 1;
    }
    if i == n {
        proof {
            assert(s@.subrange(n as int, n as int).len() == 0);
        }
        return None;
    }
    proof {
        assert(s@.subrange(i as int, n as int).drop_first() =~= s@.subrange(i + 1, n as int));
    }
    Some(char_range(s, i + 1, n))
}

/// The lines of a company address for a pay stub.
pub fn parse_address(address: &str) -> (r: Vec<String>)
    ensures
        texts_of_strings(r@) == address_lines(address@),
{
    let sep = if holds_char(address, '\n') {
        '\n'
    } else {
        ','
    };
    let mut out: Vec<String> = Vec::new();
    let mut current = to_owned_string(address);
    let ghost whole = split_fields(address@, sep);
    let mut done = false;
    let ghost mut consumed: Seq<Seq<char>> = Seq::empty();
    proof {
        assert(consumed + split_fields(current@, sep) =~= whole);
        assert(trimmed_nonempty(consumed) =~= Seq::<Seq<char>>::empty());
    }
    while !done
        invariant
            consumed + (if done {
                Seq::<Seq<char>>::empty()
            } else {
                split_fields(current@, sep)
            }) == whole,
            texts_of_strings(out@) == trimmed_nonempty(consumed),
        decreases current@.len(), if done {
            0int
        } else {
            1int
        },
    {
        let head = first_field(current.as_str(), sep);
        let t = trim(head.as_str());
        let ghost before = consumed;
        proof {
            lemma_trimmed_push(before, head@);
        }
        if char_count(t) > 0 {
            out.push(to_owned_string(t));
        }
        proof {
            consumed = before.push(head@);
            assert(texts_of_strings(out@) =~= trimmed_nonempty(consumed));
            lemma_rest_shorter(current@, sep);
        }
        match rest_after(current.as_str(), sep) {
            Some(rest) => {
                proof {
                    assert(split_fields(current@, sep) =~= seq![head@] + split_fields(rest@, sep));
                    assert(before + split_fields(current@, sep) =~= consumed + split_fields(rest@, sep));
                }
                current = rest;
            },
            None => {
                proof {
                    assert(split_fields(current@, sep) =~= seq![current@]);
                    assert(before_first(current@, sep) == current@) by {
                        lemma_no_sep_whole(current@, sep);
                    }
                    assert(before + split_fields(current@, sep) =~= consumed);
                }
                done = true;
            },
        }
    }
    proof {
        assert(consumed + Seq::<Seq<char>>::empty() =~= consumed);
        if address@.contains('\n') {
            assert(sep == '\n');
        }
    }
    out
}

proof fn lemma_no_sep_whole(s: Seq<char>, c: char)
    requires
        second_field_rest(s, c) is None,
    ensures
        before_first(s, c) == s,
    decreases s.len(),
{
    if s.len() > 0 {
        lemma_no_sep_whole(s.drop_first(), c);
        assert(seq![s[0]] + s.drop_first() =~= s);
    }
}

/// Trimming and filtering a list with one more field at the end.
proof fn lemma_trimmed_push(fields: Seq<Seq<char>>, f: Seq<char>)
    ensures
        trimmed_nonempty(fields.push(f)) == trimmed_nonempty(fields) + (if text_trim(f).len() > 0 {
            seq![text_trim(f)]
        } else {
            Seq::empty()
        }),
    decreases fields.len(),
{
    if fields.len() == 0 {
        assert(fields.push(f).drop_first() =~= Seq::<Seq<char>>::empty());
        assert(trimmed_nonempty(Seq::<Seq<char>>::empty()) == Seq::<Seq<char>>::empty());
        if text_trim(f).len() > 0 {
            assert(seq![text_trim(f)] + Seq::<Seq<char>>::empty() =~= seq![text_trim(f)]);
        }
    } else {
        assert(fields.push(f).drop_first() =~= fields.drop_first().push(f));
        lemma_trimmed_push(fields.drop_first(), f);
        assert(fields.push(f)[0] == fields[0]);
        let t = text_trim(fields[0]);
        let tail = if text_trim(f).len() > 0 {
            seq![text_trim(f)]
        } else {
            Seq::<Seq<char>>::empty()
        };
        if t.len() > 0 {
            assert(seq![t] + (trimmed_nonempty(fields.drop_first()) + tail) =~= (seq![t]
                + trimmed_nonempty(fields.drop_first())) + tail);
        }
    }
}
} // verus!

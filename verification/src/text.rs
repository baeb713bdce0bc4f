//! Text helpers: the few standard string operations the payroll rules use.
use vstd::prelude::*;
use vstd::string::*;

verus! {

pub open spec fn is_ascii_char(c: char) -> bool {
    (c as u32) < 128
}

pub open spec fn all_ascii(s: Seq<char>) -> bool {
    forall|i: int| 0 <= i < s.len() ==> is_ascii_char(#[trigger] s[i])
}

pub open spec fn ascii_lower(c: char) -> char {
    if 'A' <= c <= 'Z' {
        ((c as u32) + 32) as char
    } else {
        c
    }
}

pub open spec fn ascii_upper(c: char) -> char {
    if 'a' <= c <= 'z' {
        ((c as u32) - 32) as char
    } else {
        c
    }
}

pub open spec fn is_digit_char(c: char) -> bool {
    '0' <= c <= '9'
}

pub open spec fn is_ascii_alpha_char(c: char) -> bool {
    ('a' <= c <= 'z') || ('A' <= c <= 'Z')
}

/// What `str::to_lowercase` returns.
pub uninterp spec fn text_lowercase(s: Seq<char>) -> Seq<char>;

/// What `str::to_uppercase` returns.
pub uninterp spec fn text_uppercase(s: Seq<char>) -> Seq<char>;

/// Unicode's White_Space property, as `char::is_whitespace` reads it.
pub open spec fn is_white_space(c: char) -> bool {
    ||| '\u{9}' <= c <= '\u{d}'
    ||| c == ' '
    ||| c == '\u{85}'
    ||| c == '\u{a0}'
    ||| c == '\u{1680}'
    ||| '\u{2000}' <= c <= '\u{200a}'
    ||| c == '\u{2028}'
    ||| c == '\u{2029}'
    ||| c == '\u{202f}'
    ||| c == '\u{205f}'
    ||| c == '\u{3000}'
}

/// How many white space characters a text starts with.
pub open spec fn leading_white(s: Seq<char>) -> nat
    decreases s.len(),
{
    if s.len() > 0 && is_white_space(s[0]) {
        1 + leading_white(s.drop_first())
    } else {
        0
    }
}

/// How many white space characters a text ends with.
pub open spec fn trailing_white(s: Seq<char>) -> nat
    decreases s.len(),
{
    if s.len() > 0 && is_white_space(s.last()) {
        1 + trailing_white(s.drop_last())
    } else {
        0
    }
}

/// What `str::trim` returns: the text without its leading and trailing
/// white space.
pub open spec fn text_trim(s: Seq<char>) -> Seq<char> {
    let t = s.subrange(leading_white(s) as int, s.len() as int);
    t.subrange(0, t.len() - trailing_white(t))
}

/// What `char::is_alphanumeric` returns.
pub uninterp spec fn char_alphanumeric(c: char) -> bool;

/// The character of a decimal digit `d` (0 to 9).
pub open spec fn digit_char(d: int) -> char {
    ((('0' as int) + d) as char)
}

/// The decimal digits of a natural number, with no leading zeros.
pub open spec fn nat_text(n: nat) -> Seq<char>
    decreases n,
{
    if n < 10 {
        seq![digit_char(n as int)]
    } else {
        nat_text(n / 10).push(digit_char((n % 10) as int))
    }
}

/// An integer in decimal, with a leading `-` for negatives.
pub open spec fn int_text(n: int) -> Seq<char> {
    if n < 0 {
        seq!['-'] + nat_text((-n) as nat)
    } else {
        nat_text(n as nat)
    }
}

/// `str::to_lowercase`: Unicode lowercase mapping.  On ASCII text this
/// maps `A`–`Z` to `a`–`z` and keeps every other character.
#[verifier::external_body]
pub(crate) fn to_lowercase(s: &str) -> (r: String)
    ensures
        r@ == text_lowercase(s@),
        all_ascii(s@) ==> r@ == s@.map_values(|c: char| ascii_lower(c)),
{
    s.to_lowercase()
}

/// `str::to_uppercase`: Unicode uppercase mapping.  On ASCII text this
/// maps `a`–`z` to `A`–`Z` and keeps every other character.
#[verifier::external_body]
pub(crate) fn to_uppercase(s: &str) -> (r: String)
    ensures
        r@ == text_uppercase(s@),
        all_ascii(s@) ==> r@ == s@.map_values(|c: char| ascii_upper(c)),
{
    s.to_uppercase()
}

/// `str::trim`: the text without leading and trailing white space (see
/// `text_trim`).  An empty text stays empty; a text whose first and last
/// characters are ASCII letters or digits is unchanged.
#[verifier::external_body]
pub(crate) fn trim(s: &str) -> (r: &str)
    ensures
        r@ == text_trim(s@),
        s@.len() == 0 ==> r@.len() == 0,
        (s@.len() > 0 && (is_ascii_alpha_char(s@[0]) || is_digit_char(s@[0])) && (
        is_ascii_alpha_char(s@.last()) || is_digit_char(s@.last()))) ==> r@ == s@,
{
    s.trim()
}

/// `char::is_alphanumeric`.  ASCII letters and digits are alphanumeric;
/// other ASCII characters are not.
#[verifier::external_body]
pub(crate) fn is_alphanumeric(c: char) -> (r: bool)
    ensures
        r == char_alphanumeric(c),
        is_ascii_char(c) ==> (r == (is_ascii_alpha_char(c) || is_digit_char(c))),
{
    c.is_alphanumeric()
}

/// `i64::to_string`: decimal digits with no leading zeros, with a leading
/// `-` for negatives.
#[verifier::external_body]
pub(crate) fn i64_text(n: i64) -> (r: String)
    ensures
        r@ == int_text(n as int),
{
    n.to_string()
}

/// `String::push`.
#[verifier::external_body]
pub(crate) fn push_char(s: &mut String, c: char)
    ensures
        final(s)@ == old(s)@.push(c),
{
    s.push(c)
}

/// `String::push_str`.
#[verifier::external_body]
pub(crate) fn push_str(s: &mut String, t: &str)
    ensures
        final(s)@ == old(s)@ + t@,
{
    s.push_str(t)
}

/// `str::to_string`.
#[verifier::external_body]
pub(crate) fn to_owned_string(s: &str) -> (r: String)
    ensures
        r@ == s@,
{
    s.to_string()
}

/// `str == str`.
#[verifier::external_body]
pub(crate) fn str_eq(a: &str, b: &str) -> (r: bool)
    ensures
        r == (a@ == b@),
{
    a == b
}

/// The number of characters of a text.
pub fn char_count(s: &str) -> (r: usize)
    ensures
        r == s@.len(),
{
    s.unicode_len()
}

/// The character at a position.
pub fn char_at(s: &str, i: usize) -> (c: char)
    requires
        i < s@.len(),
    ensures
        c == s@[i as int],
{
    s.get_char(i)
}

pub fn is_ascii_digit(c: char) -> (r: bool)
    ensures
        r == is_digit_char(c),
{
    '0' <= c && c <= '9'
}

pub fn is_ascii_alphabetic(c: char) -> (r: bool)
    ensures
        r == is_ascii_alpha_char(c),
{
    ('a' <= c && c <= 'z') || ('A' <= c && c <= 'Z')
}

/// Each occurrence of `from` replaced by `to` (`str::replace` with a
/// character pattern).
pub open spec fn replace_char_spec(s: Seq<char>, from: char, to: Seq<char>) -> Seq<char>
    decreases s.len(),
{
    if s.len() == 0 {
        Seq::empty()
    } else {
        let head = replace_char_spec(s.drop_last(), from, to);
        if s.last() == from {
            head + to
        } else {
            head.push(s.last())
        }
    }
}

/// The digits of a text, in order.
pub open spec fn digits_of(s: Seq<char>) -> Seq<char>
    decreases s.len(),
{
    if s.len() == 0 {
        Seq::empty()
    } else if is_digit_char(s.last()) {
        digits_of(s.drop_last()).push(s.last())
    } else {
        digits_of(s.drop_last())
    }
}

pub fn replace_char(s: &str, from: char, to: &str) -> (r: String)
    ensures
        r@ == replace_char_spec(s@, from, to@),
{
    let n = char_count(s);
    let mut out = String::new();
    let mut i: usize = 0;
    while i < n
        invariant
            n == s@.len(),
            i <= n,
            out@ == replace_char_spec(s@.subrange(0, i as int), from, to@),
        decreases n - i,
    {
        let c = char_at(s, i);
        proof {
            let t = s@.subrange(0, i + 1);
            assert(t.drop_last() =~= s@.subrange(0, i as int));
            assert(t.last() == c);
        }
        if c == from {
            push_str(&mut out, to);
        } else {
            push_char(&mut out, c);
        }
        i = i + 1;
    }
    proof {
        assert(s@.subrange(0, n as int) =~= s@);
    }
    out
}

/// The digits of a text (`s.chars().filter(|c| c.is_ascii_digit()).collect()`).
pub fn ascii_digits(s: &str) -> (r: String)
    ensures
        r@ == digits_of(s@),
{
    let n = char_count(s);
    let mut out = String::new();
    let mut i: usize = 0;
    while i < n
        invariant
            n == s@.len(),
            i <= n,
            out@ == digits_of(s@.subrange(0, i as int)),
        decreases n - i,
    {
        let c = char_at(s, i);
        proof {
            let t = s@.subrange(0, i + 1);
            assert(t.drop_last() =~= s@.subrange(0, i as int));
            assert(t.last() == c);
        }
        if is_ascii_digit(c) {
            push_char(&mut out, c);
        }
        i = i + 1;
    }
    proof {
        assert(s@.subrange(0, n as int) =~= s@);
    }
    out
}

/// The characters from `from` up to `to`.
pub fn char_range(s: &str, from: usize, to: usize) -> (r: String)
    requires
        from <= to <= s@.len(),
    ensures
        r@ == s@.subrange(from as int, to as int),
{
    let mut out = String::new();
    let mut i: usize = from;
    while i < to
        invariant
            from <= i <= to,
            to <= s@.len(),
            out@ == s@.subrange(from as int, i as int),
        decreases to - i,
    {
        let c = char_at(s, i);
        push_char(&mut out, c);
        proof {
            assert(s@.subrange(from as int, i + 1) =~= s@.subrange(from as int, i as int).push(c));
        }
        i = i + 1;
    }
    out
}

/// Replacing a character that does not occur leaves the text unchanged.
pub proof fn lemma_replace_absent(s: Seq<char>, from: char, to: Seq<char>)
    requires
        forall|i: int| 0 <= i < s.len() ==> s[i] != from,
    ensures
        replace_char_spec(s, from, to) == s,
    decreases s.len(),
{
    if s.len() > 0 {
        lemma_replace_absent(s.drop_last(), from, to);
        assert(s.drop_last().push(s.last()) =~= s);
    }
}

/// The value of a text made of decimal digits.
pub open spec fn digits_value(s: Seq<char>) -> int
    decreases s.len(),
{
    if s.len() == 0 {
        0
    } else {
        10 * digits_value(s.drop_last()) + (s.last() as int - '0' as int)
    }
}

pub open spec fn all_digits(s: Seq<char>) -> bool {
    forall|i: int| 0 <= i < s.len() ==> is_digit_char(#[trigger] s[i])
}

/// What `str::parse::<i64>` accepts: an optional `+` or `-`, then one or
/// more digits, with a value that fits in an `i64`.
pub open spec fn parsed_i64(s: Seq<char>) -> Option<i64> {
    let neg = s.len() > 0 && s[0] == '-';
    let signed = s.len() > 0 && (s[0] == '-' || s[0] == '+');
    let body = if signed {
        s.drop_first()
    } else {
        s
    };
    let v = if neg {
        -digits_value(body)
    } else {
        digits_value(body)
    };
    if body.len() == 0 || !all_digits(body) || v < i64::MIN || v > i64::MAX {
        None
    } else {
        Some(v as i64)
    }
}

/// The digits of a natural number are digits, and read back as the number.
pub proof fn lemma_nat_text_value(n: nat)
    ensures
        nat_text(n).len() > 0,
        all_digits(nat_text(n)),
        digits_value(nat_text(n)) == n,
        is_digit_char(nat_text(n)[0]),
    decreases n,
{
    assert(digit_char((n % 10) as int) as int - '0' as int == n % 10);
    if n < 10 {
        let s = nat_text(n);
        assert(s.drop_last() =~= Seq::<char>::empty());
        assert(digits_value(s.drop_last()) == 0);
        assert(s.last() == digit_char(n as int));
    } else {
        lemma_nat_text_value(n / 10);
        let t = nat_text(n / 10);
        let s = t.push(digit_char((n % 10) as int));
        assert(nat_text(n) == s);
        assert(s.drop_last() =~= t);
        assert(s.last() == digit_char((n % 10) as int));
        assert(digits_value(s) == 10 * digits_value(t) + (s.last() as int - '0' as int));
        assert(10 * (n / 10) + n % 10 == n);
        assert(s[0] == t[0]);
        assert forall|i: int| 0 <= i < s.len() implies is_digit_char(#[trigger] s[i]) by {
            if i < t.len() {
                assert(s[i] == t[i]);
            }
        }
    }
}

/// `str::parse::<i64>` reads back what `i64::to_string` writes.
pub proof fn law_i64_text_parses(i: i64)
    ensures
        parsed_i64(int_text(i as int)) == Some(i),
{
    if i < 0 {
        let n = (-(i as int)) as nat;
        lemma_nat_text_value(n);
        let s = seq!['-'] + nat_text(n);
        assert(s.drop_first() =~= nat_text(n));
    } else {
        lemma_nat_text_value(i as nat);
    }
}

proof fn lemma_digits_value_nonneg(s: Seq<char>)
    requires
        all_digits(s),
    ensures
        digits_value(s) >= 0,
    decreases s.len(),
{
    if s.len() > 0 {
        assert(all_digits(s.drop_last())) by {
            assert forall|i: int| 0 <= i < s.drop_last().len() implies is_digit_char(
                #[trigger] s.drop_last()[i],
            ) by {
                assert(s.drop_last()[i] == s[i]);
            }
        }
        lemma_digits_value_nonneg(s.drop_last());
        assert(is_digit_char(s[s.len() - 1]));
    }
}

/// A longer run of digits is worth at least as much as its prefix.
proof fn lemma_digits_value_grows(s: Seq<char>, k: int)
    requires
        all_digits(s),
        0 <= k <= s.len(),
    ensures
        digits_value(s) >= digits_value(s.subrange(0, k)),
    decreases s.len(),
{
    if k < s.len() {
        let t = s.drop_last();
        assert(all_digits(t)) by {
            assert forall|i: int| 0 <= i < t.len() implies is_digit_char(#[trigger] t[i]) by {
                assert(t[i] == s[i]);
            }
        }
        assert(t.subrange(0, k) =~= s.subrange(0, k));
        lemma_digits_value_grows(t, k);
        lemma_digits_value_nonneg(t);
        assert(is_digit_char(s[s.len() - 1]));
    } else {
        assert(s.subrange(0, k) =~= s);
    }
}

/// `str::parse::<i64>`.
pub fn parse_i64(s: &str) -> (r: Option<i64>)
    ensures
        r == parsed_i64(s@),
{
    let n = char_count(s);
    if n == 0 {
        return None;
    }
    let first = char_at(s, 0);
    let neg = first == '-';
    let start: usize = if first == '-' || first == '+' {
        1
    } else {
        0
    };
    if start == n {
        proof {
            assert(s@.drop_first().len() == 0);
        }
        return None;
    }
    let ghost body = if start == 1 {
        s@.drop_first()
    } else {
        s@
    };
    let mut acc: i128 = 0;
    let mut i: usize = start;
    while i < n
        invariant
            n == s@.len(),
            start <= i <= n,
            start == 0 || start == 1,
            n > 0,
            (s@[0] == '-' || s@[0] == '+') == (start == 1),
            neg == (s@[0] == '-'),
            body == (if start == 1 {
                s@.drop_first()
            } else {
                s@
            }),
            body =~= s@.subrange(start as int, n as int),
            all_digits(s@.subrange(start as int, i as int)),
            acc == digits_value(s@.subrange(start as int, i as int)),
            0 <= acc <= 9223372036854775808,
        decreases n - i,
    {
        let c = char_at(s, i);
        let ghost pre = s@.subrange(start as int, i + 1);
        proof {
            assert(pre.drop_last() =~= s@.subrange(start as int, i as int));
            assert(pre.last() == c);
        }
        if !is_ascii_digit(c) {
            proof {
                assert(body[i - start] == c);
                assert(!all_digits(body));
            }
            return None;
        }
        acc = acc * 10 + (c as u32 - '0' as u32) as i128;
        proof {
            assert(all_digits(pre)) by {
                assert forall|j: int| 0 <= j < pre.len() implies is_digit_char(#[trigger] pre[j]) by {
                    if j < pre.len() - 1 {
                        assert(pre[j] == s@.subrange(start as int, i as int)[j]);
                    }
                }
            }
        }
        if acc > 9223372036854775808 {
            proof {
                if all_digits(body) {
                    assert(body.subrange(0, i + 1 - start) =~= pre);
                    lemma_digits_value_grows(body, i + 1 - start);
                }
            }
            return None;
        }
        i = i + 1;
    }
    proof {
        assert(s@.subrange(start as int, n as int) =~= body);
        if start == 1 {
            assert(body =~= s@.drop_first());
        } else {
            assert(body =~= s@);
        }
    }
    if neg {
        if acc > 9223372036854775808 {
            None
        } else {
            Some((0 - acc) as i64)
        }
    } else if acc > 9223372036854775807 {
        None
    } else {
        Some(acc as i64)
    }
}

/// What `str::parse::<i32>` gives: the same syntax as `i64`, in `i32` range.
pub open spec fn parsed_i32(s: Seq<char>) -> Option<i32> {
    match parsed_i64(s) {
        Some(v) => if i32::MIN <= v <= i32::MAX {
            Some(v as i32)
        } else {
            None
        },
        None => None,
    }
}

/// `str::parse::<i32>`.
pub fn parse_i32(s: &str) -> (r: Option<i32>)
    ensures
        r == parsed_i32(s@),
{
    match parse_i64(s) {
        Some(v) => if -2147483648 <= v && v <= 2147483647 {
            Some(v as i32)
        } else {
            None
        },
        None => None,
    }
}

/// Whether `s` starts with `prefix`.
pub fn starts_with(s: &str, prefix: &str) -> (r: bool)
    ensures
        r == (prefix@.len() <= s@.len() && s@.subrange(0, prefix@.len() as int) == prefix@),
{
    let n = char_count(s);
    let m = char_count(prefix);
    if m > n {
        return false;
    }
    let mut i: usize = 0;
    while i < m
        invariant
            m == prefix@.len(),
            n == s@.len(),
            m <= n,
            i <= m,
            forall|j: int| 0 <= j < i ==> s@[j] == prefix@[j],
        decreases m - i,
    {
        if char_at(s, i) != char_at(prefix, i) {
            assert(s@.subrange(0, m as int)[i as int] != prefix@[i as int]);
            return false;
        }
        i = i + 1;
    }
    assert(s@.subrange(0, m as int) =~= prefix@);
    true
}

/// `s` with every leading `c` taken off (`str::trim_start_matches` with a
/// character).
pub open spec fn strip_leading(s: Seq<char>, c: char) -> Seq<char>
    decreases s.len(),
{
    if s.len() > 0 && s[0] == c {
        strip_leading(s.drop_first(), c)
    } else {
        s
    }
}

pub fn trim_start_char(s: &str, c: char) -> (r: String)
    ensures
        r@ == strip_leading(s@, c),
{
    let n = char_count(s);
    let mut i: usize = 0;
    proof {
        assert(s@.subrange(0, n as int) =~= s@);
    }
    while i < n && char_at(s, i) == c
        invariant
            n == s@.len(),
            i <= n,
            strip_leading(s@, c) == strip_leading(s@.subrange(i as int, n as int), c),
        decreases n - i,
    {
        proof {
            assert(s@.subrange(i as int, n as int).drop_first() =~= s@.subrange(i + 1, n as int));
        }
        i = i + 1;
    }
    char_range(s, i, n)
}

/// `sub` occurs in `s` at position `i`.
pub open spec fn infix_at(s: Seq<char>, sub: Seq<char>, i: int) -> bool {
    0 <= i && i + sub.len() <= s.len() && s.subrange(i, i + sub.len()) == sub
}

/// `sub` occurs somewhere in `s` (`str::contains` with a text pattern).
pub open spec fn has_infix(s: Seq<char>, sub: Seq<char>) -> bool {
    exists|i: int| #[trigger] infix_at(s, sub, i)
}

/// Whether `sub` occurs in `s` starting at position `i`.
fn occurs_at(s: &str, sub: &str, i: usize) -> (r: bool)
    requires
        i + sub@.len() <= s@.len(),
    ensures
        r == infix_at(s@, sub@, i as int),
{
    let n = char_count(s);
    let m = char_count(sub);
    let mut j: usize = 0;
    while j < m
        invariant
            m == sub@.len(),
            n == s@.len(),
            i + m <= s@.len(),
            j <= m,
            forall|t: int| 0 <= t < j ==> s@[i + t] == sub@[t],
        decreases m - j,
    {
        if char_at(s, i + j) != char_at(sub, j) {
            assert(s@.subrange(i as int, i + m)[j as int] != sub@[j as int]);
            return false;
        }
        j = j + 1;
    }
    assert(s@.subrange(i as int, i + m) =~= sub@);
    true
}

/// Whether `sub` occurs in `s`.
pub fn contains_text(s: &str, sub: &str) -> (r: bool)
    ensures
        r == has_infix(s@, sub@),
{
    let n = char_count(s);
    let m = char_count(sub);
    if m > n {
        assert forall|i: int| !infix_at(s@, sub@, i) by {}
        return false;
    }
    if m == 0 {
        assert(infix_at(s@, sub@, 0)) by {
            assert(s@.subrange(0, 0) =~= sub@);
        }
        return true;
    }
    let stop = n - m + 1;
    let mut i: usize = 0;
    while i < stop
        invariant
            n == s@.len(),
            m == sub@.len(),
            1 <= m <= n,
            stop == n - m + 1,
            i <= stop,
            forall|k: int| 0 <= k < i ==> !infix_at(s@, sub@, k),
        decreases stop - i,
    {
        if occurs_at(s, sub, i) {
            return true;
        }
        i = i + 1;
    }
    assert forall|k: int| !infix_at(s@, sub@, k) by {
        if 0 <= k < i {
        }
    }
    false
}

/// A character of the stored enum texts: a lowercase ASCII letter, a
/// digit or `_`.
pub open spec fn is_plain_char(c: char) -> bool {
    ('a' <= c <= 'z') || ('0' <= c <= '9') || c == '_'
}

pub open spec fn plain_text(s: Seq<char>) -> bool {
    forall|i: int| 0 <= i < s.len() ==> is_plain_char(#[trigger] s[i])
}

/// The text with `A`–`Z` written as `a`–`z`.
pub open spec fn ascii_lowercase(s: Seq<char>) -> Seq<char> {
    s.map_values(|c: char| ascii_lower(c))
}

/// The text with `a`–`z` written as `A`–`Z`.
pub open spec fn ascii_uppercase(s: Seq<char>) -> Seq<char> {
    s.map_values(|c: char| ascii_upper(c))
}

/// Replacing a character by one character changes that character at each
/// place it stands and nothing else.
pub proof fn lemma_replace_one(s: Seq<char>, from: char, to: char)
    ensures
        replace_char_spec(s, from, seq![to]).len() == s.len(),
        forall|i: int|
            0 <= i < s.len() ==> #[trigger] replace_char_spec(s, from, seq![to])[i] == (if s[i]
                == from {
                to
            } else {
                s[i]
            }),
    decreases s.len(),
{
    if s.len() > 0 {
        lemma_replace_one(s.drop_last(), from, to);
        let r = replace_char_spec(s, from, seq![to]);
        assert forall|i: int| 0 <= i < s.len() implies #[trigger] r[i] == (if s[i] == from {
            to
        } else {
            s[i]
        }) by {
            if i < s.len() - 1 {
                assert(s.drop_last()[i] == s[i]);
            }
        }
    }
}

proof fn lemma_plain_char_case(c: char)
    requires
        is_plain_char(c) || c == ' ' || c == '-',
    ensures
        is_ascii_char(c),
        ascii_lower(c) == c,
        is_ascii_char(ascii_upper(c)),
        ascii_lower(ascii_upper(c)) == c,
{
}

/// A plain text is ASCII, has no space or `-`, is its own lower case, and
/// is the lower case of its upper case.
pub proof fn lemma_plain_text_case(s: Seq<char>)
    requires
        plain_text(s),
    ensures
        all_ascii(s),
        all_ascii(ascii_uppercase(s)),
        ascii_lowercase(s) == s,
        ascii_lowercase(ascii_uppercase(s)) == s,
        forall|i: int| 0 <= i < s.len() ==> #[trigger] s[i] != ' ' && s[i] != '-',
{
    assert forall|i: int| 0 <= i < s.len() implies is_ascii_char(#[trigger] s[i]) && is_ascii_char(
        ascii_uppercase(s)[i],
    ) && ascii_lowercase(s)[i] == s[i] && ascii_lowercase(ascii_uppercase(s))[i] == s[i] by {
        lemma_plain_char_case(s[i]);
    }
    assert(ascii_lowercase(s) =~= s);
    assert(ascii_lowercase(ascii_uppercase(s)) =~= s);
}

/// A plain text with each `_` written as `sep` (a space or `-`): it is
/// ASCII, its own lower case and the lower case of its upper case, and
/// writing each `sep` back as `_` gives the plain text again.
pub proof fn lemma_plain_text_separator(s: Seq<char>, sep: char)
    requires
        plain_text(s),
        sep == ' ' || sep == '-',
    ensures
        all_ascii(replace_char_spec(s, '_', seq![sep])),
        all_ascii(ascii_uppercase(replace_char_spec(s, '_', seq![sep]))),
        ascii_lowercase(replace_char_spec(s, '_', seq![sep])) == replace_char_spec(s, '_', seq![sep]),
        ascii_lowercase(ascii_uppercase(replace_char_spec(s, '_', seq![sep])))
            == replace_char_spec(s, '_', seq![sep]),
        replace_char_spec(replace_char_spec(s, '_', seq![sep]), sep, "_"@) == s,
{
    let d = replace_char_spec(s, '_', seq![sep]);
    lemma_replace_one(s, '_', sep);
    lemma_replace_one(d, sep, '_');
    reveal_strlit("_");
    assert("_"@ =~= seq!['_']);
    assert forall|i: int| 0 <= i < d.len() implies is_ascii_char(#[trigger] d[i]) && is_ascii_char(
        ascii_uppercase(d)[i],
    ) && ascii_lowercase(d)[i] == d[i] && ascii_lowercase(ascii_uppercase(d))[i] == d[i] by {
        lemma_plain_char_case(d[i]);
    }
    assert(ascii_lowercase(d) =~= d);
    assert(ascii_lowercase(ascii_uppercase(d)) =~= d);
    assert(replace_char_spec(d, sep, seq!['_']) =~= s);
}

} // verus!

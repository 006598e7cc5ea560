use vstd::prelude::*;
use vstd::slice::slice_subrange;
use crate::text::{ascii, lower, spells, spells_word, to_lower};

verus! {

/// The digit `0`.
pub const ZERO: u8 = 48;

/// The digit `9`.
pub const NINE: u8 = 57;

/// The sign `+`.
pub const PLUS: u8 = 43;

/// The sign `-`.
pub const MINUS: u8 = 45;

/// The decimal point.
pub const POINT: u8 = 46;

/// The letter `e`, which starts an exponent.
pub const EXPONENT: u8 = 101;

/// A decimal digit, `0` to `9`.
pub open spec fn is_digit(b: u8) -> bool {
    ZERO <= b <= NINE
}

/// A sign, `+` or `-`.
pub open spec fn is_sign(b: u8) -> bool {
    b == PLUS || b == MINUS
}

/// Where the longest run of decimal digits of `s` that starts at `from` ends.
pub open spec fn digits_end(s: Seq<u8>, from: int) -> int
    decreases s.len() - from,
{
    if 0 <= from < s.len() && is_digit(s[from]) {
        digits_end(s, from + 1)
    } else {
        from
    }
}

/// An exponent stands at `at` and runs to the end of `s`: the letter `e` in either
/// case, an optional sign, and one digit or more.
pub open spec fn exponent_at(s: Seq<u8>, at: int) -> bool {
    &&& 0 <= at
    &&& at + 1 < s.len()
    &&& lower(s[at]) == EXPONENT
    &&& {
        let digits = if is_sign(s[at + 1]) { at + 2 } else { at + 1 };
        digits < s.len() && digits_end(s, digits) == s.len()
    }
}

/// Every byte of `s` is a decimal digit.
pub open spec fn all_digits(s: Seq<u8>) -> bool {
    forall|i: int| 0 <= i < s.len() ==> is_digit(#[trigger] s[i])
}

/// A point stands at `p` in `s`, with digits alone before it and after it, and at
/// least one digit in all.
pub open spec fn point_at(s: Seq<u8>, p: int) -> bool {
    &&& 0 <= p < s.len()
    &&& s[p] == POINT
    &&& s.len() > 1
    &&& all_digits(s.take(p))
    &&& all_digits(s.skip(p + 1))
}

/// A mantissa: one digit or more, with at most one point before, among or after
/// them.
pub open spec fn is_mantissa(s: Seq<u8>) -> bool {
    ||| s.len() > 0 && all_digits(s)
    ||| exists|p: int| #[trigger] point_at(s, p)
}

/// An exponent: the letter `e` in either case, an optional sign, and one digit or
/// more.
pub open spec fn is_exponent(s: Seq<u8>) -> bool {
    &&& s.len() >= 2
    &&& lower(s[0]) == EXPONENT
    &&& if is_sign(s[1]) {
        s.len() > 2 && all_digits(s.skip(2))
    } else {
        all_digits(s.skip(1))
    }
}

/// The first `m` bytes of `s` are a mantissa, and the rest is nothing or an
/// exponent.
pub open spec fn splits_at(s: Seq<u8>, m: int) -> bool {
    &&& 0 < m <= s.len()
    &&& is_mantissa(s.take(m))
    &&& (m == s.len() || is_exponent(s.skip(m)))
}

/// An unsigned decimal number: a mantissa, and then an optional exponent.
pub open spec fn is_decimal(s: Seq<u8>) -> bool {
    exists|m: int| #[trigger] splits_at(s, m)
}

/// What a reader finds who takes digits as long as there are digits: digits, a
/// point and more digits if a point follows, at least one digit in all, and
/// then the end or an exponent.
pub open spec fn scans_as_decimal(s: Seq<u8>) -> bool {
    let whole = digits_end(s, 0);
    let point = whole < s.len() && s[whole] == POINT;
    let mantissa = if point { digits_end(s, whole + 1) } else { whole };
    let digits = if point { mantissa - 1 } else { mantissa };
    &&& digits > 0
    &&& (mantissa == s.len() || exponent_at(s, mantissa))
}

/// A run of digits holds digits only, and ends within the text.
pub proof fn lemma_digits_run(s: Seq<u8>, from: int)
    requires
        0 <= from <= s.len(),
    ensures
        from <= digits_end(s, from) <= s.len(),
        forall|i: int| from <= i < digits_end(s, from) ==> is_digit(#[trigger] s[i]),
        digits_end(s, from) == s.len() || !is_digit(s[digits_end(s, from)]),
    decreases s.len() - from,
{
    if from < s.len() && is_digit(s[from]) {
        lemma_digits_run(s, from + 1);
    }
}

/// A run of digits ends at the first byte that is no digit.
proof fn lemma_digits_end_is(s: Seq<u8>, from: int, end: int)
    requires
        0 <= from <= end <= s.len(),
        forall|i: int| from <= i < end ==> is_digit(#[trigger] s[i]),
        end == s.len() || !is_digit(s[end]),
    ensures
        digits_end(s, from) == end,
    decreases end - from,
{
    if from < end {
        lemma_digits_end_is(s, from + 1, end);
    }
}

/// An exponent found at `at` is an exponent, and the other way round.
proof fn lemma_exponent_at(s: Seq<u8>, at: int)
    requires
        0 <= at < s.len(),
    ensures
        exponent_at(s, at) == is_exponent(s.skip(at)),
{
    let e = s.skip(at);
    if at + 1 < s.len() && lower(s[at]) == EXPONENT {
        let digits = if is_sign(s[at + 1]) { at + 2 } else { at + 1 };
        let rest = s.skip(digits);
        assert(rest =~= e.skip(digits - at));
        assert(e[0] == s[at] && e[1] == s[at + 1]);
        if digits < s.len() {
            lemma_digits_run(s, digits);
            if digits_end(s, digits) == s.len() {
                assert forall|i: int| 0 <= i < rest.len() implies is_digit(#[trigger] rest[i]) by {
                    assert(rest[i] == s[digits + i]);
                }
            } else {
                let stop = digits_end(s, digits);
                assert(rest[stop - digits] == s[stop]);
            }
        } else {
            assert(is_sign(e[1]));
            assert(e.len() == 2);
        }
        if all_digits(rest) && digits < s.len() {
            assert forall|i: int| digits <= i < s.len() implies is_digit(#[trigger] s[i]) by {
                assert(rest[i - digits] == s[i]);
            }
            lemma_digits_end_is(s, digits, s.len() as int);
        }
    }
}

/// A decimal number is what the reader who takes digits as long as there are
/// digits accepts.
pub proof fn lemma_decimal_scan(s: Seq<u8>)
    ensures
        is_decimal(s) == scans_as_decimal(s),
{
    if scans_as_decimal(s) {
        lemma_scan_splits(s);
    }
    if is_decimal(s) {
        let m = choose|m: int| #[trigger] splits_at(s, m);
        lemma_split_scans(s, m);
    }
}

proof fn lemma_scan_splits(s: Seq<u8>)
    requires
        scans_as_decimal(s),
    ensures
        is_decimal(s),
{
    let whole = digits_end(s, 0);
    lemma_digits_run(s, 0);
    let point = whole < s.len() && s[whole] == POINT;
    if point {
        lemma_digits_run(s, whole + 1);
    }
    let mantissa = if point { digits_end(s, whole + 1) } else { whole };
    let m = s.take(mantissa);
    if point {
        assert forall|i: int| 0 <= i < m.take(whole).len() implies is_digit(
            #[trigger] m.take(whole)[i],
        ) by {
            assert(m.take(whole)[i] == s[i]);
        }
        assert forall|i: int| 0 <= i < m.skip(whole + 1).len() implies is_digit(
            #[trigger] m.skip(whole + 1)[i],
        ) by {
            assert(m.skip(whole + 1)[i] == s[whole + 1 + i]);
        }
        assert(m[whole] == s[whole]);
        assert(point_at(m, whole));
    } else {
        assert forall|i: int| 0 <= i < m.len() implies is_digit(#[trigger] m[i]) by {
            assert(m[i] == s[i]);
        }
    }
    assert(is_mantissa(m));
    if mantissa < s.len() {
        lemma_exponent_at(s, mantissa);
    }
    assert(splits_at(s, mantissa));
}

proof fn lemma_split_scans(s: Seq<u8>, m: int)
    requires
        splits_at(s, m),
    ensures
        scans_as_decimal(s),
{
    let t = s.take(m);
    if m < s.len() {
        assert(s.skip(m)[0] == s[m]);
        assert(lower(s[m]) == EXPONENT);
    }
    if t.len() > 0 && all_digits(t) {
        assert forall|i: int| 0 <= i < m implies is_digit(#[trigger] s[i]) by {
            assert(t[i] == s[i]);
        }
        lemma_digits_end_is(s, 0, m);
    } else {
        let p = choose|p: int| #[trigger] point_at(t, p);
        assert(t[p] == s[p]);
        assert forall|i: int| 0 <= i < p implies is_digit(#[trigger] s[i]) by {
            assert(t.take(p)[i] == s[i]);
        }
        lemma_digits_end_is(s, 0, p);
        assert forall|i: int| p + 1 <= i < m implies is_digit(#[trigger] s[i]) by {
            assert(t.skip(p + 1)[i - (p + 1)] == s[i]);
        }
        lemma_digits_end_is(s, p + 1, m);
    }
    if m < s.len() {
        lemma_exponent_at(s, m);
    }
}

/// One of the three named values, in any case: `inf`, `infinity`, `nan`.
pub open spec fn is_special(s: Seq<u8>) -> bool {
    ||| spells(s, ascii("inf"@))
    ||| spells(s, ascii("infinity"@))
    ||| spells(s, ascii("nan"@))
}

/// What follows the optional sign at the head of `s`.
pub open spec fn unsigned_part(s: Seq<u8>) -> Seq<u8> {
    if s.len() > 0 && is_sign(s[0]) {
        s.subrange(1, s.len() as int)
    } else {
        s
    }
}

/// The text of a floating-point literal: an optional sign, then a named value or a
/// decimal number. No blank may stand before, inside or after it. These are the
/// texts that the standard library parses as a floating-point number.
pub open spec fn is_float_literal(s: Seq<u8>) -> bool {
    is_special(unsigned_part(s)) || is_decimal(unsigned_part(s))
}

fn byte_is_digit(b: u8) -> (r: bool)
    ensures
        r == is_digit(b),
{
    ZERO <= b && b <= NINE
}

fn byte_is_sign(b: u8) -> (r: bool)
    ensures
        r == is_sign(b),
{
    b == PLUS || b == MINUS
}

/// Walks over the digits that start at `from`.
fn scan_digits(s: &[u8], from: usize) -> (end: usize)
    requires
        from <= s.len(),
    ensures
        end == digits_end(s@, from as int),
        from <= end <= s.len(),
{
    let mut i: usize = from;
    while i < s.len() && byte_is_digit(s[i])
        invariant
            from <= i <= s.len(),
            digits_end(s@, from as int) == digits_end(s@, i as int),
        decreases s.len() - i,
    {
        i += 1;
    }
    i
}

fn check_exponent(s: &[u8], at: usize) -> (r: bool)
    requires
        at <= s.len(),
    ensures
        r == exponent_at(s@, at as int),
{
    if s.len() - at < 2 {
        return false;
    }
    if to_lower(s[at]) != EXPONENT {
        return false;
    }
    let digits: usize = if byte_is_sign(s[at + 1]) { at + 2 } else { at + 1 };
    if digits >= s.len() {
        return false;
    }
    scan_digits(s, digits) == s.len()
}

fn check_decimal(s: &[u8]) -> (r: bool)
    ensures
        r == is_decimal(s@),
{
    proof {
        lemma_decimal_scan(s@);
    }
    let whole = scan_digits(s, 0);
    let point = whole < s.len() && s[whole] == POINT;
    let mantissa: usize = if point { scan_digits(s, whole + 1) } else { whole };
    let digits: usize = if point { mantissa - 1 } else { mantissa };
    if digits == 0 {
        return false;
    }
    mantissa == s.len() || check_exponent(s, mantissa)
}

fn check_special(s: &[u8]) -> (r: bool)
    ensures
        r == is_special(s@),
{
    proof {
        reveal_strlit("inf");
        reveal_strlit("infinity");
        reveal_strlit("nan");
    }
    spells_word(s, "inf") || spells_word(s, "infinity") || spells_word(s, "nan")
}

/// Whether `token` is the text of a floating-point literal.
pub fn check_float_literal(token: &[u8]) -> (r: bool)
    ensures
        r == is_float_literal(token@),
{
    let rest = if token.len() > 0 && byte_is_sign(token[0]) {
        slice_subrange(token, 1, token.len())
    } else {
        token
    };
    check_special(rest) || check_decimal(rest)
}

} // verus!

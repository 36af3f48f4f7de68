//! Recognition of decimal numerals in header text: the signed 64-bit integer
//! syntax accepted by `i64::from_str` and the floating-point literal syntax
//! accepted by `f64::from_str`, both over raw bytes.

use vstd::prelude::*;

verus! {

/// An ASCII decimal digit.
pub open spec fn is_digit(b: u8) -> bool {
    0x30 <= b <= 0x39
}

/// Every byte is a decimal digit.
pub open spec fn all_digits(s: Seq<u8>) -> bool {
    forall|i: int| 0 <= i < s.len() ==> is_digit(#[trigger] s[i])
}

/// The value of a string of decimal digits, most significant first.
pub open spec fn digits_value(s: Seq<u8>) -> nat
    decreases s.len(),
{
    if s.len() == 0 {
        0
    } else {
        digits_value(s.drop_last()) * 10 + (s.last() - 0x30) as nat
    }
}

/// Splits an optional leading `+` or `-` off: whether it was `-`, and the rest.
pub open spec fn split_sign(s: Seq<u8>) -> (bool, Seq<u8>) {
    if s.len() > 0 && s[0] == 0x2d {
        (true, s.drop_first())
    } else if s.len() > 0 && s[0] == 0x2b {
        (false, s.drop_first())
    } else {
        (false, s)
    }
}

/// What `i64::from_str` returns on these bytes: an optional sign followed by
/// at least one digit, whose value fits in an `i64`.
pub open spec fn parse_i64_spec(s: Seq<u8>) -> Option<i64> {
    let (negative, digits) = split_sign(s);
    if digits.len() == 0 || !all_digits(digits) {
        None
    } else {
        let v: int = if negative { -(digits_value(digits) as int) } else { digits_value(digits) as int };
        if i64::MIN <= v <= i64::MAX { Some(v as i64) } else { None }
    }
}

/// A digit prefix never has a larger value than the whole digit string.
pub proof fn lemma_prefix_value_le(s: Seq<u8>, k: int)
    requires
        all_digits(s),
        0 <= k <= s.len(),
    ensures
        digits_value(s.take(k)) <= digits_value(s),
    decreases s.len(),
{
    if k < s.len() {
        assert(s.take(k) =~= s.drop_last().take(k));
        lemma_prefix_value_le(s.drop_last(), k);
    } else {
        assert(s.take(k) =~= s);
    }
}

/// An unsigned digit string whose value fits reads as that value.
pub proof fn lemma_digits_parse_as_value(s: Seq<u8>)
    requires
        s.len() > 0,
        all_digits(s),
        digits_value(s) <= i64::MAX,
    ensures
        parse_i64_spec(s) == Some(digits_value(s) as i64),
{
    assert(is_digit(s[0]));
    assert(split_sign(s).1 == s);
}

/// Parses an `i64` exactly as `i64::from_str` does.
pub fn parse_i64(s: &Vec<u8>) -> (r: Option<i64>)
    ensures
        r == parse_i64_spec(s@),
{
    let n = s.len();
    let mut start: usize = 0;
    let mut negative = false;
    if n > 0 && s[0] == 0x2d {
        negative = true;
        start = 1;
    } else if n > 0 && s[0] == 0x2b {
        start = 1;
    }
    let ghost digits = s@.skip(start as int);
    assert(digits =~= split_sign(s@).1);
    if start == n {
        return None;
    }
    let limit: u64 = 0x8000_0000_0000_0000;
    let mut mag: u64 = 0;
    let mut i = start;
    while i < n
        invariant
            start <= i <= n,
            n == s@.len(),
            digits == s@.skip(start as int),
            digits == split_sign(s@).1,
            negative == split_sign(s@).0,
            limit == 0x8000_0000_0000_0000u64,
            all_digits(digits.take(i - start)),
            mag as nat == digits_value(digits.take(i - start)),
            mag <= limit,
        decreases n - i,
    {
        let b = s[i];
        if b < 0x30 || b > 0x39 {
            assert(!is_digit(digits[i - start]));
            return None;
        }
        assert(digits.take(i - start + 1).drop_last() =~= digits.take(i - start));
        let d = (b - 0x30) as u64;
        if mag > (limit - d) / 10 {
            proof {
                if all_digits(digits) {
                    lemma_prefix_value_le(digits, i - start + 1);
                }
            }
            return None;
        }
        mag = mag * 10 + d;
        i = i + 1;
    }
    assert(digits.take(n - start) =~= digits);
    if negative {
        if mag == limit {
            Some(i64::MIN)
        } else {
            Some(-(mag as i64))
        }
    } else if mag < limit {
        Some(mag as i64)
    } else {
        None
    }
}

/// ASCII lowercase of one byte.
pub open spec fn ascii_lower(b: u8) -> u8 {
    if 0x41 <= b <= 0x5a { (b + 0x20) as u8 } else { b }
}

/// The bytes spell `word` when lowercased.
pub open spec fn spells_lowercase(s: Seq<u8>, word: Seq<u8>) -> bool {
    s.len() == word.len() && forall|i: int| 0 <= i < s.len() ==> ascii_lower(#[trigger] s[i]) == word[i]
}

/// `inf`, `infinity` or `nan`, in any letter case.
pub open spec fn is_special_float(s: Seq<u8>) -> bool {
    ||| spells_lowercase(s, seq![0x69u8, 0x6e, 0x66])
    ||| spells_lowercase(s, seq![0x69u8, 0x6e, 0x66, 0x69, 0x6e, 0x69, 0x74, 0x79])
    ||| spells_lowercase(s, seq![0x6eu8, 0x61, 0x6e])
}

/// `Digit+ | Digit+ '.' Digit* | Digit* '.' Digit+`: digits with at most one
/// decimal point and at least one digit.
pub open spec fn is_mantissa(s: Seq<u8>) -> bool {
    &&& forall|i: int| 0 <= i < s.len() ==> is_digit(#[trigger] s[i]) || s[i] == 0x2e
    &&& forall|i: int, j: int|
        0 <= i < s.len() && 0 <= j < s.len() && #[trigger] s[i] == 0x2e && #[trigger] s[j] == 0x2e ==> i == j
    &&& exists|i: int| 0 <= i < s.len() && is_digit(#[trigger] s[i])
}

/// `'e' Sign? Digit+`, the `e` in either case.
pub open spec fn is_exponent(s: Seq<u8>) -> bool {
    &&& s.len() > 0
    &&& ascii_lower(s[0]) == 0x65
    &&& split_sign(s.drop_first()).1.len() > 0
    &&& all_digits(split_sign(s.drop_first()).1)
}

/// `Number ::= Mantissa Exp?`
pub open spec fn is_float_number(s: Seq<u8>) -> bool {
    exists|m: int| 0 <= m <= s.len() && #[trigger] is_mantissa(s.take(m)) && (m == s.len() || is_exponent(s.skip(m)))
}

/// The grammar of `f64::from_str`: `Sign? ( 'inf' | 'infinity' | 'nan' | Number )`,
/// letters in any case.
pub open spec fn is_float_literal(s: Seq<u8>) -> bool {
    is_special_float(split_sign(s).1) || is_float_number(split_sign(s).1)
}

/// A non-empty string of digits (such as `0`) is a floating-point literal.
pub proof fn lemma_digits_are_float_literal(s: Seq<u8>)
    requires
        s.len() > 0,
        all_digits(s),
    ensures
        is_float_literal(s),
{
    assert(is_digit(s[0]));
    assert(split_sign(s).1 == s);
    assert(s.take(s.len() as int) =~= s);
    assert(is_digit(s[0]));
    assert(is_mantissa(s.take(s.len() as int)));
}

fn lower(b: u8) -> (r: u8)
    ensures
        r == ascii_lower(b),
{
    if 0x41 <= b && b <= 0x5a { b + 0x20 } else { b }
}

/// Whether `s[start..]` spells `word` in any letter case.
fn spells_from(s: &Vec<u8>, start: usize, word: &[u8]) -> (r: bool)
    requires
        start <= s@.len(),
    ensures
        r == spells_lowercase(s@.skip(start as int), word@),
{
    let ghost rest = s@.skip(start as int);
    let total = s.len();
    if total - start != word.len() {
        return false;
    }
    let mut i: usize = 0;
    while i < word.len()
        invariant
            i <= word@.len(),
            rest.len() == word@.len(),
            start <= s@.len(),
            rest == s@.skip(start as int),
            start + word@.len() == s@.len(),
            total == s@.len(),
            forall|k: int| 0 <= k < i ==> ascii_lower(#[trigger] rest[k]) == word@[k],
        decreases word@.len() - i,
    {
        let idx = start + i;
        if lower(s[idx]) != word[i] {
            assert(ascii_lower(rest[i as int]) != word@[i as int]);
            return false;
        }
        i = i + 1;
    }
    true
}

/// Whether `s[start..]` is all digits and not empty.
fn digits_from(s: &Vec<u8>, start: usize) -> (r: bool)
    requires
        start <= s@.len(),
    ensures
        r == (s@.skip(start as int).len() > 0 && all_digits(s@.skip(start as int))),
{
    let ghost rest = s@.skip(start as int);
    if start == s.len() {
        return false;
    }
    let mut i = start;
    while i < s.len()
        invariant
            start <= i <= s@.len(),
            rest == s@.skip(start as int),
            forall|k: int| 0 <= k < i - start ==> is_digit(#[trigger] rest[k]),
        decreases s@.len() - i,
    {
        if s[i] < 0x30 || s[i] > 0x39 {
            assert(!is_digit(rest[i - start]));
            return false;
        }
        i = i + 1;
    }
    true
}

/// Whether `s[start..]` is an exponent part.
fn exponent_from(s: &Vec<u8>, start: usize) -> (r: bool)
    requires
        start <= s@.len(),
    ensures
        r == is_exponent(s@.skip(start as int)),
{
    let ghost e = s@.skip(start as int);
    if start == s.len() || lower(s[start]) != 0x65 {
        return false;
    }
    let mut j = start + 1;
    if j < s.len() && (s[j] == 0x2b || s[j] == 0x2d) {
        j = j + 1;
    }
    assert(split_sign(e.drop_first()).1 =~= s@.skip(j as int));
    digits_from(s, j)
}

/// Whether the bytes are a floating-point literal that `f64::from_str` accepts.
pub fn is_float_text(s: &Vec<u8>) -> (r: bool)
    ensures
        r == is_float_literal(s@),
{
    let n = s.len();
    let mut start: usize = 0;
    if n > 0 && (s[0] == 0x2b || s[0] == 0x2d) {
        start = 1;
    }
    let ghost b = s@.skip(start as int);
    assert(b =~= split_sign(s@).1);
    if spells_from(s, start, &[0x69u8, 0x6e, 0x66]) || spells_from(
        s,
        start,
        &[0x69u8, 0x6e, 0x66, 0x69, 0x6e, 0x69, 0x74, 0x79],
    ) || spells_from(s, start, &[0x6eu8, 0x61, 0x6e]) {
        return true;
    }
    assert(!is_special_float(b));
    // Scan the longest prefix of digits holding at most one decimal point.
    let mut j = start;
    let mut dot: Option<usize> = None;
    let mut seen_digit = false;
    while j < n
        invariant
            start <= j <= n,
            n == s@.len(),
            b == s@.skip(start as int),
            forall|k: int| 0 <= k < j - start ==> is_digit(#[trigger] b[k]) || b[k] == 0x2e,
            match dot {
                Some(d) => start <= d < j && b[d - start] == 0x2e && forall|k: int|
                    0 <= k < j - start && #[trigger] b[k] == 0x2e ==> k == d - start,
                None => forall|k: int| 0 <= k < j - start ==> #[trigger] b[k] != 0x2e,
            },
            seen_digit == exists|k: int| 0 <= k < j - start && is_digit(#[trigger] b[k]),
        ensures
            start <= j <= n,
            j < n ==> !is_digit(b[j - start]) && (b[j - start] != 0x2e || dot is Some),
        decreases n - j,
    {
        let c = s[j];
        assert(c == b[j - start]);
        if 0x30 <= c && c <= 0x39 {
            assert(is_digit(b[j - start]));
            seen_digit = true;
        } else if c == 0x2e && dot.is_none() {
            dot = Some(j);
        } else {
            break;
        }
        j = j + 1;
    }
    let m = j - start;
    proof {
        // The mantissa of any split is exactly the scanned prefix.
        assert forall|m2: int|
            0 <= m2 <= b.len() && #[trigger] is_mantissa(b.take(m2)) && (m2 == b.len() || is_exponent(b.skip(m2)))
            implies m2 == m by {
            if m2 < m {
                assert(b.skip(m2)[0] == b[m2]);
                assert(b[m2] == b.take(m as int)[m2]);
                assert(is_digit(b[m2]) || b[m2] == 0x2e);
            } else if m2 > m {
                assert(b.take(m2)[m as int] == b[m as int]);
                let c = b[m as int];
                if !(is_digit(c) || c == 0x2e) {
                } else {
                    let d = dot->0;
                    assert(b.take(m2)[d - start] == 0x2e);
                }
            }
        }
        if seen_digit {
            let k = choose|k: int| 0 <= k < m && is_digit(#[trigger] b[k]);
            assert(b.take(m as int)[k] == b[k]);
        }
    }
    if !seen_digit {
        proof {
            assert forall|m2: int|
                0 <= m2 <= b.len() && #[trigger] is_mantissa(b.take(m2)) implies m2 != m || !(m2 == b.len() || is_exponent(b.skip(m2))) by {
                if m2 == m && (m2 == b.len() || is_exponent(b.skip(m2))) {
                    let k = choose|k: int| 0 <= k < b.take(m2).len() && is_digit(#[trigger] b.take(m2)[k]);
                    assert(b.take(m2)[k] == b[k]);
                }
            }
        }
        return false;
    }
    proof {
        assert(is_mantissa(b.take(m as int)));
    }
    if j == n {
        assert(b.take(m as int) =~= b.take(b.len() as int));
        return true;
    }
    assert(b.skip(m as int) =~= s@.skip(j as int));
    exponent_from(s, j)
}

} // verus!

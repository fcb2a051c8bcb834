//! Character classes, decimal parsing and formatting, and small string
//! helpers shared by the configuration parser and the JSON reports.

use vstd::prelude::*;

verus! {

/// An ASCII decimal digit `0`..=`9`.
pub open spec fn is_digit(c: char) -> bool {
    '0' <= c && c <= '9'
}

/// An ASCII hexadecimal digit, in either case.
pub open spec fn is_hex_digit(c: char) -> bool {
    ||| is_digit(c)
    ||| ('a' <= c && c <= 'f')
    ||| ('A' <= c && c <= 'F')
}

/// An ASCII letter or digit.
pub open spec fn is_alnum(c: char) -> bool {
    ||| is_digit(c)
    ||| ('a' <= c && c <= 'z')
    ||| ('A' <= c && c <= 'Z')
}

/// The numeric value of a decimal digit character.
pub open spec fn digit_value(c: char) -> nat {
    (c as nat - '0' as nat) as nat
}

/// The value of a (possibly empty) run of decimal digits, most significant first.
pub open spec fn digits_value(s: Seq<char>) -> nat
    decreases s.len(),
{
    if s.len() == 0 {
        0
    } else {
        digits_value(s.drop_last()) * 10 + digit_value(s.last())
    }
}

/// Every character of `s` is a decimal digit.
pub open spec fn all_digits(s: Seq<char>) -> bool {
    forall|i: int| 0 <= i < s.len() ==> is_digit(#[trigger] s[i])
}

/// The digits of an unsigned decimal number: the text without one leading `+`.
pub open spec fn unsigned_digits(s: Seq<char>) -> Seq<char> {
    if s.len() > 0 && s[0] == '+' {
        s.drop_first()
    } else {
        s
    }
}

/// What parsing `s` as an unsigned integer with largest value `max` gives: an
/// optional `+`, then at least one decimal digit and nothing else, with a value
/// of at most `max` (leading zeros are allowed).
pub open spec fn parse_unsigned(s: Seq<char>, max: nat) -> Option<nat> {
    let d = unsigned_digits(s);
    if d.len() > 0 && all_digits(d) && digits_value(d) <= max {
        Some(digits_value(d))
    } else {
        None
    }
}

/// What parsing `s` as a `u8` gives (`str::parse::<u8>`).
pub open spec fn parsed_u8(s: Seq<char>) -> Option<u8> {
    match parse_unsigned(s, 255) {
        Some(v) => Some(v as u8),
        None => None,
    }
}

/// What parsing `s` as a `u16` gives (`str::parse::<u16>`).
pub open spec fn parsed_u16(s: Seq<char>) -> Option<u16> {
    match parse_unsigned(s, 65535) {
        Some(v) => Some(v as u16),
        None => None,
    }
}

/// What parsing `s` as a `u32` gives (`str::parse::<u32>`).
pub open spec fn parsed_u32(s: Seq<char>) -> Option<u32> {
    match parse_unsigned(s, 4294967295) {
        Some(v) => Some(v as u32),
        None => None,
    }
}

/// What parsing `s` as a `u64` gives (`str::parse::<u64>`).
pub open spec fn parsed_u64(s: Seq<char>) -> Option<u64> {
    match parse_unsigned(s, 18446744073709551615) {
        Some(v) => Some(v as u64),
        None => None,
    }
}

/// The decimal text of a `u8`.
pub open spec fn u8_text(v: u8) -> Seq<char> {
    decimal_text(v as nat)
}

/// The decimal text of a `u32`.
pub open spec fn u32_text(v: u32) -> Seq<char> {
    decimal_text(v as nat)
}

/// The character of a decimal digit value.
pub open spec fn digit_char(d: nat) -> char {
    ('0' as nat + d) as char
}

/// The decimal text of `v`, without leading zeros.
pub open spec fn decimal_text(v: nat) -> Seq<char>
    decreases v,
{
    if v < 10 {
        seq![digit_char(v)]
    } else {
        decimal_text(v / 10).push(digit_char(v % 10))
    }
}

/// The text of a boolean as JSON writes it.
pub open spec fn bool_text(b: bool) -> Seq<char> {
    if b {
        seq!['t', 'r', 'u', 'e']
    } else {
        seq!['f', 'a', 'l', 's', 'e']
    }
}

/// Appends one character to a string by `String::push`, which is trusted to
/// leave the string as it was with `c` added at the end.
#[verifier::external_body]
pub fn push_char(out: &mut String, c: char)
    ensures
        final(out)@ == old(out)@.push(c),
{
    out.push(c);
}

/// A new string holding the characters of `s`.
pub fn string_of(s: &str) -> (r: String)
    ensures
        r@ == s@,
{
    String::from_str(s)
}

/// Appends the characters of `s` to `out`.
pub fn push_str(out: &mut String, s: &str)
    ensures
        final(out)@ == old(out)@ + s@,
{
    out.append(s);
}

/// Whether two strings hold the same characters.
pub fn str_equals(a: &str, b: &str) -> (r: bool)
    ensures
        r == (a@ == b@),
{
    let n = a.unicode_len();
    let m = b.unicode_len();
    if n != m {
        return false;
    }
    let mut i: usize = 0;
    while i < n
        invariant
            n == a@.len(),
            m == b@.len(),
            n == m,
            i <= n,
            forall|j: int| 0 <= j < i ==> a@[j] == b@[j],
        decreases n - i,
    {
        if a.get_char(i) != b.get_char(i) {
            return false;
        }
        i = i + 1;
    }
    assert(a@ =~= b@);
    true
}

proof fn lemma_digits_value_push(s: Seq<char>, c: char)
    ensures
        digits_value(s.push(c)) == digits_value(s) * 10 + digit_value(c),
{
    assert(s.push(c).drop_last() =~= s);
}

/// Parses an unsigned decimal number of value at most `max`, as `str::parse`
/// does for unsigned integer types.
pub fn parse_unsigned_decimal(s: &str, max: u64) -> (r: Option<u64>)
    ensures
        match parse_unsigned(s@, max as nat) {
            Some(v) => r == Some(v as u64),
            None => r is None,
        },
{
    let n = s.unicode_len();
    let mut start: usize = 0;
    if n > 0 && s.get_char(0) == '+' {
        start = 1;
    }
    let ghost d = unsigned_digits(s@);
    assert(d =~= s@.subrange(start as int, n as int));
    if start == n {
        return None;
    }
    let bound: u128 = max as u128 + 1;
    let mut value: u128 = 0;
    let mut i: usize = start;
    while i < n
        invariant
            n == s@.len(),
            start <= i <= n,
            d =~= s@.subrange(start as int, n as int),
            d == unsigned_digits(s@),
            bound == max + 1,
            all_digits(s@.subrange(start as int, i as int)),
            value as nat == if digits_value(s@.subrange(start as int, i as int)) < bound {
                digits_value(s@.subrange(start as int, i as int))
            } else {
                bound as nat
            },
        decreases n - i,
    {
        let c = s.get_char(i);
        if c < '0' || c > '9' {
            assert(!all_digits(d)) by {
                assert(d[i - start] == c);
                assert(!is_digit(d[i - start]));
            }
            assert(parse_unsigned(s@, max as nat) is None);
            return None;
        }
        let digit: u128 = (c as u128) - ('0' as u128);
        proof {
            let prefix = s@.subrange(start as int, i as int);
            assert(s@.subrange(start as int, i + 1) =~= prefix.push(c));
            lemma_digits_value_push(prefix, c);
        }
        if value >= bound {
            value = bound;
        } else {
            let next = value * 10 + digit;
            value = if next >= bound {
                bound
            } else {
                next
            };
        }
        i = i + 1;
    }
    if value >= bound {
        None
    } else {
        Some(value as u64)
    }
}

/// Parses a `u8` in decimal, as `str::parse::<u8>` does.
pub fn parse_u8(s: &str) -> (r: Option<u8>)
    ensures
        r == parsed_u8(s@),
{
    match parse_unsigned_decimal(s, 255) {
        Some(v) => Some(v as u8),
        None => None,
    }
}

/// Parses a `u16` in decimal, as `str::parse::<u16>` does.
pub fn parse_u16(s: &str) -> (r: Option<u16>)
    ensures
        r == parsed_u16(s@),
{
    match parse_unsigned_decimal(s, 65535) {
        Some(v) => Some(v as u16),
        None => None,
    }
}

/// Parses a `u64` in decimal, as `str::parse::<u64>` does.
pub fn parse_u64(s: &str) -> (r: Option<u64>)
    ensures
        r == parsed_u64(s@),
{
    parse_unsigned_decimal(s, 18446744073709551615)
}

/// Parses a `u32` in decimal, as `str::parse::<u32>` does.
pub fn parse_u32(s: &str) -> (r: Option<u32>)
    ensures
        r == parsed_u32(s@),
{
    match parse_unsigned_decimal(s, 4294967295) {
        Some(v) => Some(v as u32),
        None => None,
    }
}

/// Appends the decimal text of `v` to `out`.
pub fn push_decimal(out: &mut String, v: u64)
    ensures
        final(out)@ == old(out)@ + decimal_text(v as nat),
    decreases v,
{
    if v >= 10 {
        push_decimal(out, v / 10);
    }
    let d = (v % 10) as u32;
    let c = char_from_digit(d);
    push_char(out, c);
    proof {
        if v >= 10 {
            assert(decimal_text(v as nat) == decimal_text((v / 10) as nat).push(digit_char((v % 10) as nat)));
        } else {
            assert(decimal_text(v as nat) == seq![digit_char(v as nat)]);
        }
    }
    assert(final(out)@ =~= old(out)@ + decimal_text(v as nat));
}

/// Appends the decimal text of a `u8` to `out`.
pub fn push_u8(out: &mut String, v: u8)
    ensures
        final(out)@ == old(out)@ + u8_text(v),
{
    push_decimal(out, v as u64);
}

/// Appends the decimal text of a `u32` to `out`.
pub fn push_u32(out: &mut String, v: u32)
    ensures
        final(out)@ == old(out)@ + u32_text(v),
{
    push_decimal(out, v as u64);
}

/// The character of a decimal digit.
pub fn char_from_digit(d: u32) -> (c: char)
    requires
        d < 10,
    ensures
        c == digit_char(d as nat),
        is_digit(c),
{
    let c = match d {
        0 => '0',
        1 => '1',
        2 => '2',
        3 => '3',
        4 => '4',
        5 => '5',
        6 => '6',
        7 => '7',
        8 => '8',
        _ => '9',
    };
    c
}

/// Appends `true` or `false` to `out`.
pub fn push_bool(out: &mut String, b: bool)
    ensures
        final(out)@ == old(out)@ + bool_text(b),
{
    if b {
        push_char(out, 't');
        push_char(out, 'r');
        push_char(out, 'u');
        push_char(out, 'e');
    } else {
        push_char(out, 'f');
        push_char(out, 'a');
        push_char(out, 'l');
        push_char(out, 's');
        push_char(out, 'e');
    }
    assert(final(out)@ =~= old(out)@ + bool_text(b));
}

} // verus!

verus! {

/// `decimal_text(v)` is the decimal numeral of `v`: it is not empty, made of
/// digits only, has no leading zero (apart from the numeral `0` itself), and
/// its digits are worth `v`.
pub proof fn lemma_decimal_text_is_numeral(v: nat)
    ensures
        decimal_text(v).len() > 0,
        all_digits(decimal_text(v)),
        digits_value(decimal_text(v)) == v,
        decimal_text(v).len() > 1 ==> decimal_text(v)[0] != '0',
        v == 0 ==> decimal_text(v) == seq!['0'],
    decreases v,
{
    if v >= 10 {
        lemma_decimal_text_is_numeral(v / 10);
        let init = decimal_text(v / 10);
        let c = digit_char(v % 10);
        assert(decimal_text(v) == init.push(c));
        assert(init.push(c).drop_last() =~= init);
        assert(digits_value(init.push(c)) == digits_value(init) * 10 + digit_value(c));
        assert(init.push(c)[0] == init[0]);
        assert(digit_value(c) == v % 10);
        assert((v / 10) * 10 + v % 10 == v);
        if init.len() == 1 {
            assert(init[0] != '0') by {
                if init[0] == '0' {
                    assert(digits_value(init) == digits_value(init.drop_last()) * 10 + digit_value(
                        init[0],
                    ));
                    assert(init.drop_last() =~= Seq::<char>::empty());
                }
            }
        }
    } else {
        let t = seq![digit_char(v)];
        assert(decimal_text(v) == t);
        assert(t.drop_last() =~= Seq::<char>::empty());
        assert(digit_value(digit_char(v)) == v);
        assert(digits_value(Seq::<char>::empty()) == 0);
        assert(t.last() == digit_char(v));
        assert(digits_value(t) == digits_value(t.drop_last()) * 10 + digit_value(t.last()));
    }
}

/// Reading back the decimal text of `v` gives `v`, for any largest value
/// `max` of at least `v`.
pub proof fn lemma_decimal_text_parses_back(v: nat, max: nat)
    requires
        v <= max,
    ensures
        parse_unsigned(decimal_text(v), max) == Some(v),
{
    lemma_decimal_text_is_numeral(v);
    assert(unsigned_digits(decimal_text(v)) == decimal_text(v));
}

} // verus!

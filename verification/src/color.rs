//! RGB colors: the `#RRGGBB` notation, channel values and brightness scaling.

use vstd::prelude::*;

use crate::error::{fails_invalid_input, is_invalid_input, Error};
use crate::text::{is_digit, is_hex_digit, push_char, push_str, string_of};

verus! {

/// An RGB color with one byte per channel.
#[derive(Clone, Copy, Debug, PartialEq, Eq, Structural)]
pub struct Color {
    pub red: u8,
    pub green: u8,
    pub blue: u8,
}

/// The value of a hexadecimal digit character.
pub open spec fn hex_value(c: char) -> nat {
    if is_digit(c) {
        (c as nat - '0' as nat) as nat
    } else if 'a' <= c && c <= 'f' {
        (c as nat - 'a' as nat + 10) as nat
    } else {
        (c as nat - 'A' as nat + 10) as nat
    }
}

/// The byte written by two hexadecimal digits, high digit first.
pub open spec fn hex_byte(high: char, low: char) -> u8 {
    (hex_value(high) * 16 + hex_value(low)) as u8
}

/// `s` is a color in the exact `#RRGGBB` form, in either case.
pub open spec fn is_hex_color(s: Seq<char>) -> bool {
    &&& s.len() == 7
    &&& s[0] == '#'
    &&& forall|i: int| 1 <= i < 7 ==> is_hex_digit(#[trigger] s[i])
}

/// The color that a text in the `#RRGGBB` form denotes.
pub open spec fn color_of_hex(s: Seq<char>) -> Color {
    Color { red: hex_byte(s[1], s[2]), green: hex_byte(s[3], s[4]), blue: hex_byte(s[5], s[6]) }
}

/// The upper-case hexadecimal digit of a value below 16.
pub open spec fn upper_hex_char(d: nat) -> char {
    if d < 10 {
        ('0' as nat + d) as char
    } else {
        ('A' as nat + d - 10) as char
    }
}

/// The two upper-case hexadecimal digits of a byte.
pub open spec fn byte_hex(b: u8) -> Seq<char> {
    seq![upper_hex_char(b as nat / 16), upper_hex_char(b as nat % 16)]
}

/// The `#RRGGBB` text of a color, with upper-case digits.
pub open spec fn hex_text(c: Color) -> Seq<char> {
    seq!['#'] + byte_hex(c.red) + byte_hex(c.green) + byte_hex(c.blue)
}

/// A channel value scaled by a brightness percentage, rounded half up.
pub open spec fn scale_channel(value: u8, percent: u8) -> u8 {
    ((value * percent + 50) / 100) as u8
}

/// Every channel of `c` scaled by `percent`.
pub open spec fn scaled_color(c: Color, percent: u8) -> Color {
    Color {
        red: scale_channel(c.red, percent),
        green: scale_channel(c.green, percent),
        blue: scale_channel(c.blue, percent),
    }
}

/// The message of a brightness outside 0..=100.
pub open spec fn brightness_range_message() -> Seq<char> {
    "brightness must be between 0 and 100"@
}

/// The message of a color text that does not start with `#`.
pub open spec fn hex_form_message() -> Seq<char> {
    "color must use the exact #RRGGBB form"@
}

/// The message of a color text with a `#` but not six hexadecimal digits.
pub open spec fn hex_digits_message() -> Seq<char> {
    "color must contain exactly six hexadecimal digits"@
}

/// The message of a channel value above 255, for the channel named `name`.
pub open spec fn channel_range_message(name: Seq<char>) -> Seq<char> {
    name + " channel must be between 0 and 255"@
}

/// The numeric value of a hexadecimal digit.
fn nibble(c: char) -> (r: u8)
    requires
        is_hex_digit(c),
    ensures
        r as nat == hex_value(c),
        r < 16,
{
    if '0' <= c && c <= '9' {
        ((c as u32) - ('0' as u32)) as u8
    } else if 'a' <= c && c <= 'f' {
        ((c as u32) - ('a' as u32) + 10) as u8
    } else {
        ((c as u32) - ('A' as u32) + 10) as u8
    }
}

/// The upper-case hexadecimal digit of a value below 16.
fn upper_hex_digit(d: u8) -> (c: char)
    requires
        d < 16,
    ensures
        c == upper_hex_char(d as nat),
{
    match d {
        0 => '0',
        1 => '1',
        2 => '2',
        3 => '3',
        4 => '4',
        5 => '5',
        6 => '6',
        7 => '7',
        8 => '8',
        9 => '9',
        10 => 'A',
        11 => 'B',
        12 => 'C',
        13 => 'D',
        14 => 'E',
        _ => 'F',
    }
}

/// Checks that a brightness percentage lies in 0..=100.
pub fn validate_brightness(brightness: u8) -> (r: Result<(), Error>)
    ensures
        brightness <= 100 ==> r is Ok,
        brightness > 100 ==> fails_invalid_input(r, brightness_range_message()),
{
    if brightness > 100 {
        Err(Error::InvalidInput(string_of("brightness must be between 0 and 100")))
    } else {
        Ok(())
    }
}

/// A brightness level `level` (a percentage) applied to the brightness
/// `maximum`, rounded half up.
pub fn effect_brightness(maximum: u8, level: u8) -> (r: u8)
    ensures
        r == scale_channel(maximum, level),
{
    assert(maximum * level <= 255 * 255) by (nonlinear_arith)
        requires
            maximum <= 255,
            level <= 255,
    ;
    let product: u16 = (maximum as u16) * (level as u16);
    ((product + 50) / 100) as u8
}

/// The `InvalidInput` error of a channel value above 255.
fn channel_range_error(name: &str) -> (e: Error)
    ensures
        is_invalid_input(e, channel_range_message(name@)),
{
    let mut m = string_of(name);
    push_str(&mut m, " channel must be between 0 and 255");
    Error::InvalidInput(m)
}

impl Color {
    /// Parses a color in the exact `#RRGGBB` form; the digits may be in
    /// either case.
    pub fn from_hex(value: &str) -> (r: Result<Self, Error>)
        ensures
            is_hex_color(value@) ==> r == Ok::<Color, Error>(color_of_hex(value@)),
            (value@.len() == 0 || value@[0] != '#') ==> fails_invalid_input(r, hex_form_message()),
            (value@.len() > 0 && value@[0] == '#' && !is_hex_color(value@)) ==> fails_invalid_input(
                r,
                hex_digits_message(),
            ),
    {
        let n = value.unicode_len();
        if n == 0 || value.get_char(0) != '#' {
            return Err(Error::InvalidInput(string_of("color must use the exact #RRGGBB form")));
        }
        if n != 7 {
            return Err(
                Error::InvalidInput(string_of("color must contain exactly six hexadecimal digits")),
            );
        }
        let mut i: usize = 1;
        while i < 7
            invariant
                n == value@.len(),
                n == 7,
                value@[0] == '#',
                1 <= i <= 7,
                forall|j: int| 1 <= j < i ==> is_hex_digit(#[trigger] value@[j]),
            decreases 7 - i,
        {
            let c = value.get_char(i);
            if !(('0' <= c && c <= '9') || ('a' <= c && c <= 'f') || ('A' <= c && c <= 'F')) {
                assert(!is_hex_digit(value@[i as int]));
                return Err(
                    Error::InvalidInput(
                        string_of("color must contain exactly six hexadecimal digits"),
                    ),
                );
            }
            i = i + 1;
        }
        assert(is_hex_color(value@));
        let red = nibble(value.get_char(1)) * 16 + nibble(value.get_char(2));
        let green = nibble(value.get_char(3)) * 16 + nibble(value.get_char(4));
        let blue = nibble(value.get_char(5)) * 16 + nibble(value.get_char(6));
        let color = Color { red, green, blue };
        assert(color == color_of_hex(value@));
        Ok(color)
    }

    /// Builds a color from channel values, each of which must be at most 255.
    pub fn from_components(red: u16, green: u16, blue: u16) -> (r: Result<Self, Error>)
        ensures
            red <= 255 && green <= 255 && blue <= 255 ==> r == Ok::<Color, Error>(
                Color { red: red as u8, green: green as u8, blue: blue as u8 },
            ),
            red > 255 ==> fails_invalid_input(r, channel_range_message("red"@)),
            red <= 255 && green > 255 ==> fails_invalid_input(r, channel_range_message("green"@)),
            red <= 255 && green <= 255 && blue > 255 ==> fails_invalid_input(
                r,
                channel_range_message("blue"@),
            ),
    {
        if red > 255 {
            return Err(channel_range_error("red"));
        }
        if green > 255 {
            return Err(channel_range_error("green"));
        }
        if blue > 255 {
            return Err(channel_range_error("blue"));
        }
        Ok(Color { red: red as u8, green: green as u8, blue: blue as u8 })
    }

    /// The `#RRGGBB` text of the color, with upper-case digits.
    pub fn to_hex(self) -> (r: String)
        ensures
            r@ == hex_text(self),
    {
        let mut out = string_of("#");
        push_char(&mut out, upper_hex_digit(self.red / 16));
        push_char(&mut out, upper_hex_digit(self.red % 16));
        push_char(&mut out, upper_hex_digit(self.green / 16));
        push_char(&mut out, upper_hex_digit(self.green % 16));
        push_char(&mut out, upper_hex_digit(self.blue / 16));
        push_char(&mut out, upper_hex_digit(self.blue % 16));
        proof {
            reveal_strlit("#");
        }
        assert(out@ =~= hex_text(self));
        out
    }

    /// Every channel scaled by the brightness percentage `brightness`,
    /// which must be at most 100.
    pub fn scaled(self, brightness: u8) -> (r: Result<Self, Error>)
        ensures
            brightness <= 100 ==> r == Ok::<Color, Error>(scaled_color(self, brightness)),
            brightness > 100 ==> fails_invalid_input(r, brightness_range_message()),
    {
        validate_brightness(brightness)?;
        Ok(
            Color {
                red: effect_brightness(self.red, brightness),
                green: effect_brightness(self.green, brightness),
                blue: effect_brightness(self.blue, brightness),
            },
        )
    }
}

} // verus!

verus! {

proof fn lemma_byte_hex_round_trip(b: u8)
    ensures
        is_hex_digit(byte_hex(b)[0]),
        is_hex_digit(byte_hex(b)[1]),
        hex_byte(byte_hex(b)[0], byte_hex(b)[1]) == b,
{
    let hi = b as nat / 16;
    let lo = b as nat % 16;
    assert(hi < 16 && lo < 16);
    assert(hex_value(upper_hex_char(hi)) == hi);
    assert(hex_value(upper_hex_char(lo)) == lo);
    assert(hi * 16 + lo == b as nat);
}

/// Reading back the `#RRGGBB` text that `to_hex` writes gives the same color:
/// the text is in the exact form that `from_hex` accepts and denotes `c`.
pub proof fn lemma_hex_round_trip(c: Color)
    ensures
        is_hex_color(hex_text(c)),
        color_of_hex(hex_text(c)) == c,
{
    lemma_byte_hex_round_trip(c.red);
    lemma_byte_hex_round_trip(c.green);
    lemma_byte_hex_round_trip(c.blue);
    let t = hex_text(c);
    assert(t[1] == byte_hex(c.red)[0] && t[2] == byte_hex(c.red)[1]);
    assert(t[3] == byte_hex(c.green)[0] && t[4] == byte_hex(c.green)[1]);
    assert(t[5] == byte_hex(c.blue)[0] && t[6] == byte_hex(c.blue)[1]);
    assert forall|i: int| 1 <= i < 7 implies is_hex_digit(#[trigger] t[i]) by {
        if i == 1 || i == 2 {
        } else if i == 3 || i == 4 {
        } else {
        }
    }
}

/// Full brightness leaves a color unchanged, and zero brightness turns every
/// channel off.
pub proof fn lemma_scale_bounds(c: Color)
    ensures
        scaled_color(c, 100) == c,
        scaled_color(c, 0) == (Color { red: 0, green: 0, blue: 0 }),
{
}

/// Scaling never makes a channel brighter, and a higher percentage never
/// gives a dimmer channel.
pub proof fn lemma_scale_monotonic(value: u8, low: u8, high: u8)
    requires
        low <= high <= 100,
    ensures
        scale_channel(value, low) <= scale_channel(value, high),
        scale_channel(value, high) <= value,
{
    assert(value * low <= value * high) by (nonlinear_arith)
        requires
            low <= high,
    ;
    assert(value * high <= value * 100) by (nonlinear_arith)
        requires
            high <= 100,
    ;
}

} // verus!

verus! {

/// A hexadecimal digit written in upper case.
pub open spec fn upper_hex_digit_char(c: char) -> char {
    if 'a' <= c && c <= 'f' {
        (c as nat - 32) as char
    } else {
        c
    }
}

proof fn lemma_digit_normalizes(c: char)
    requires
        is_hex_digit(c),
    ensures
        hex_value(c) < 16,
        upper_hex_char(hex_value(c)) == upper_hex_digit_char(c),
{
}

proof fn lemma_pair_normalizes(high: char, low: char)
    requires
        is_hex_digit(high),
        is_hex_digit(low),
    ensures
        byte_hex(hex_byte(high, low)) == seq![upper_hex_digit_char(high), upper_hex_digit_char(low)],
{
    lemma_digit_normalizes(high);
    lemma_digit_normalizes(low);
    let b = hex_value(high) * 16 + hex_value(low);
    assert(b < 256);
    assert(b / 16 == hex_value(high));
    assert(b % 16 == hex_value(low));
    assert(byte_hex(hex_byte(high, low)) =~= seq![upper_hex_digit_char(high), upper_hex_digit_char(low)]);
}

/// Colors are read case-insensitively and written in upper case: writing
/// back a color read from `#RRGGBB` text gives the same text with its
/// hexadecimal letters in upper case.
pub proof fn lemma_hex_normalizes(s: Seq<char>)
    requires
        is_hex_color(s),
    ensures
        hex_text(color_of_hex(s)) == s.map_values(|c: char| upper_hex_digit_char(c)),
{
    assert(is_hex_digit(s[1]) && is_hex_digit(s[2]) && is_hex_digit(s[3]));
    assert(is_hex_digit(s[4]) && is_hex_digit(s[5]) && is_hex_digit(s[6]));
    lemma_pair_normalizes(s[1], s[2]);
    lemma_pair_normalizes(s[3], s[4]);
    lemma_pair_normalizes(s[5], s[6]);
    assert(hex_text(color_of_hex(s)) =~= s.map_values(|c: char| upper_hex_digit_char(c)));
}

} // verus!

verus! {

/// Hexadecimal digits have their standard values: the `d`-th character of
/// `0123456789abcdef`, and of `0123456789ABCDEF`, is a hexadecimal digit
/// worth `d`, and `to_hex` writes the value `d` as the `d`-th character of
/// `0123456789ABCDEF`.
pub proof fn lemma_hex_digit_values(d: nat)
    requires
        d < 16,
    ensures
        is_hex_digit("0123456789abcdef"@[d as int]),
        is_hex_digit("0123456789ABCDEF"@[d as int]),
        hex_value("0123456789abcdef"@[d as int]) == d,
        hex_value("0123456789ABCDEF"@[d as int]) == d,
        upper_hex_char(d) == "0123456789ABCDEF"@[d as int],
{
    reveal_strlit("0123456789abcdef");
    reveal_strlit("0123456789ABCDEF");
    if d == 0 {
    } else if d == 1 {
    } else if d == 2 {
    } else if d == 3 {
    } else if d == 4 {
    } else if d == 5 {
    } else if d == 6 {
    } else if d == 7 {
    } else if d == 8 {
    } else if d == 9 {
    } else if d == 10 {
    } else if d == 11 {
    } else if d == 12 {
    } else if d == 13 {
    } else if d == 14 {
    } else {
    }
}

/// Every hexadecimal digit is one of `0123456789abcdef` or
/// `0123456789ABCDEF`, at the position of its value.
pub proof fn lemma_hex_digits_are_standard(c: char)
    requires
        is_hex_digit(c),
    ensures
        hex_value(c) < 16,
        c == "0123456789abcdef"@[hex_value(c) as int] || c == "0123456789ABCDEF"@[hex_value(
            c,
        ) as int],
{
    reveal_strlit("0123456789abcdef");
    reveal_strlit("0123456789ABCDEF");
    lemma_hex_digit_values(hex_value(c));
    let d = hex_value(c);
    if is_digit(c) {
        assert(c == "0123456789abcdef"@[d as int]);
    } else if 'a' <= c && c <= 'f' {
        assert(c == "0123456789abcdef"@[d as int]);
    } else {
        assert(c == "0123456789ABCDEF"@[d as int]);
    }
}

/// Scaling is proportional, rounded to nearest with halves up: the scaled
/// channel `r` of `value` at `percent` satisfies `-50 < 100 r - value * percent <= 50`.
pub proof fn lemma_scale_rounds_to_nearest(value: u8, percent: u8)
    requires
        percent <= 100,
    ensures
        -50 < 100 * scale_channel(value, percent) - value * percent <= 50,
{
    assert(value * percent <= 255 * 100) by (nonlinear_arith)
        requires
            value <= 255,
            percent <= 100,
    ;
}

} // verus!

//! Colours of 24 bits, with or without an alpha channel.
//!
//! A colour is held in one of three forms: a code of up to 24 bits, three
//! channels, or three channels and an alpha. The alpha channel is held as the
//! bit pattern of an IEEE 754 single-precision number, so that it is carried
//! without loss; where a text needs it, the caller hands in its numeral.

use vstd::prelude::*;
use vstd::string::*;
use crate::text::{
    all_hex_digits, ascii_bytes, decimal, hex_padded, hex_padded_reads_back, hex_value,
    hex_value_bound, is_hex_digit, push_decimal, push_hex_padded, sixteen_to, sixteen_to_grows,
};

verus! {

/// A colour code: red in bits 16 to 23, green in bits 8 to 15, blue in bits 0 to 7.
pub type Hex = u32;

/// Red, green and blue.
pub type Rgb = (u8, u8, u8);

/// Red, green, blue and the bit pattern of the alpha channel.
pub type Rgba = (u8, u8, u8, u32);

/// The largest colour code.
pub const HEX_MAX: u32 = 0xff_ffff;

/// The bit pattern of the alpha 1, fully opaque.
pub const ALPHA_ONE: u32 = 0x3f80_0000;

/// The bit pattern of the alpha 0, fully transparent.
pub const ALPHA_ZERO: u32 = 0;

/// Why a value is not taken as a colour.
#[derive(Debug)]
pub enum Error {
    TryFromIntError(core::num::TryFromIntError),
    EmptyStringOnConversion,
    StringTooShortOnConversion,
    StringTooLongOnConversion,
    IllegalCharOnConversion,
    ValueOutOf24BitRGBRange,
}

/// A colour, in the form it was given in.
#[derive(Debug, Clone, Copy, PartialEq, Eq)]
pub enum Color {
    Hex(Hex),
    Rgb(Rgb),
    Rgba(Rgba),
}

/// Whether a bit pattern is that of a number: not one of the patterns that
/// stand for the result of an undefined operation.
pub open spec fn alpha_is_number(a: u32) -> bool {
    a % 0x8000_0000 <= 0x7f80_0000
}

/// The alpha brought into the range from 0 to 1: a number below 0 becomes 0,
/// one above 1 becomes 1, and every other pattern stays as it is, the
/// negative zero and the patterns that are no number among them.
pub open spec fn clamp_alpha(a: u32) -> u32 {
    if !alpha_is_number(a) {
        a
    } else if a > 0x8000_0000 {
        ALPHA_ZERO
    } else if ALPHA_ONE < a < 0x8000_0000 {
        ALPHA_ONE
    } else {
        a
    }
}

/// The code of three channels.
pub open spec fn pack(r: u8, g: u8, b: u8) -> u32 {
    (r * 0x1_0000 + g * 0x100 + b) as u32
}

/// The three channels of a code; bits above the 24th are left out.
pub open spec fn unpack(code: u32) -> Rgb {
    (((code / 0x1_0000) % 0x100) as u8, ((code / 0x100) % 0x100) as u8, (code % 0x100) as u8)
}

/// A text's bytes without the hash signs that it begins with.
pub open spec fn strip_hashes(b: Seq<u8>) -> Seq<u8>
    decreases b.len(),
{
    if b.len() > 0 && b[0] == 0x23 {
        strip_hashes(b.drop_first())
    } else {
        b
    }
}

/// What a text, given by its bytes, is read as: after any hash signs at its
/// start, exactly six hexadecimal digits give the colour of that code. The
/// length is judged first, in bytes, then the digits.
pub open spec fn parse_hex_rep(b: Seq<u8>) -> Result<Color, Error> {
    let s = strip_hashes(b);
    if s.len() < 6 {
        Err(Error::StringTooShortOnConversion)
    } else if s.len() > 6 {
        Err(Error::StringTooLongOnConversion)
    } else if !all_hex_digits(s) {
        Err(Error::IllegalCharOnConversion)
    } else {
        Ok(Color::Hex(hex_value(s) as u32))
    }
}

/// What a number is taken as: the colour of that code, if it is one.
pub open spec fn parse_hex(value: u32) -> Result<Color, Error> {
    if value > HEX_MAX {
        Err(Error::ValueOutOf24BitRGBRange)
    } else {
        Ok(Color::Hex(value))
    }
}

impl Color {
    /// The colour's code.
    pub open spec fn hex_spec(self) -> u32 {
        match self {
            Color::Hex(code) => code,
            Color::Rgb((r, g, b)) => pack(r, g, b),
            Color::Rgba((r, g, b, _)) => pack(r, g, b),
        }
    }

    /// The colour's three channels.
    pub open spec fn rgb_spec(self) -> Rgb {
        match self {
            Color::Hex(code) => unpack(code),
            Color::Rgb(c) => c,
            Color::Rgba((r, g, b, _)) => (r, g, b),
        }
    }

    /// The colour's three channels and its alpha; a colour without an alpha
    /// channel is opaque.
    pub open spec fn rgba_spec(self) -> Rgba {
        match self {
            Color::Rgba(c) => c,
            _ => (self.rgb_spec().0, self.rgb_spec().1, self.rgb_spec().2, ALPHA_ONE),
        }
    }

    /// The code as it is written: a hash sign, then the code in upper-case
    /// hexadecimal, at least six digits wide.
    pub open spec fn hex_rep_spec(self) -> Seq<char> {
        "#"@ + hex_padded(self.hex_spec() as nat, 6)
    }

    /// The three channels as they are written, in decimal.
    pub open spec fn rgb_rep_spec(self) -> Seq<char> {
        let (r, g, b) = self.rgb_spec();
        "rgb("@ + decimal(r as nat) + ", "@ + decimal(g as nat) + ", "@ + decimal(b as nat) + ")"@
    }

    /// The three channels and the alpha as they are written; `alpha` is the
    /// numeral of the alpha channel.
    pub open spec fn rgba_rep_spec(self, alpha: Seq<char>) -> Seq<char> {
        let (r, g, b) = self.rgb_spec();
        "rgba("@ + decimal(r as nat) + ", "@ + decimal(g as nat) + ", "@ + decimal(b as nat) + ", "@
            + alpha + ")"@
    }

    /// The colour as it is written in the form it is held in; `alpha` is the
    /// numeral of the alpha channel, read only for a colour that has one.
    pub open spec fn text(self, alpha: Seq<char>) -> Seq<char> {
        match self {
            Color::Hex(_) => self.hex_rep_spec(),
            Color::Rgb(_) => self.rgb_rep_spec(),
            Color::Rgba(_) => self.rgba_rep_spec(alpha),
        }
    }

    pub fn from_rgb(raw: Rgb) -> (c: Self)
        ensures
            c == Color::Rgb(raw),
    {
        Color::Rgb((raw.0, raw.1, raw.2))
    }

    /// A colour of three channels and an alpha, the alpha brought into the
    /// range from 0 to 1.
    pub fn from_rgba(raw: Rgba) -> (c: Self)
        ensures
            c == Color::Rgba((raw.0, raw.1, raw.2, clamp_alpha(raw.3))),
    {
        let a: u32 = raw.3;
        let number: bool = a % 0x8000_0000 <= 0x7f80_0000;
        let a: u32 = if !number {
            a
        } else if a > 0x8000_0000 {
            ALPHA_ZERO
        } else if a > ALPHA_ONE && a < 0x8000_0000 {
            ALPHA_ONE
        } else {
            a
        };
        Color::Rgba((raw.0, raw.1, raw.2, a))
    }

    pub fn from_hex(raw: Hex) -> (c: Self)
        requires
            raw <= HEX_MAX,
        ensures
            c == Color::Hex(raw),
    {
        Color::Hex(raw)
    }

    /// Reads a colour code written in hexadecimal, with or without hash signs
    /// before it.
    pub fn from_hex_rep(rep: &str) -> (r: Result<Self, Error>)
        ensures
            r == parse_hex_rep(rep.spec_bytes()),
    {
        let bytes = rep.as_bytes();
        let n: usize = bytes.len();
        let mut start: usize = 0;
        assert(bytes@.subrange(0, n as int) =~= bytes@);
        while start < n && bytes[start] == 0x23
            invariant
                start <= n,
                n == bytes@.len(),
                strip_hashes(bytes@) == strip_hashes(bytes@.subrange(start as int, n as int)),
            decreases n - start,
        {
            proof {
                let rest = bytes@.subrange(start as int, n as int);
                assert(rest.drop_first() =~= bytes@.subrange(start + 1, n as int));
            }
            start += 1;
        }
        let ghost digits = bytes@.subrange(start as int, n as int);
        assert(strip_hashes(bytes@) == digits);
        if n - start != 6 {
            return Err(
                if n - start < 6 {
                    Error::StringTooShortOnConversion
                } else {
                    Error::StringTooLongOnConversion
                },
            );
        }
        let mut value: u32 = 0;
        let mut i: usize = 0;
        while i < 6
            invariant
                i <= 6,
                start + 6 == n,
                n == bytes@.len(),
                digits == bytes@.subrange(start as int, n as int),
                digits == strip_hashes(rep.spec_bytes()),
                all_hex_digits(digits.subrange(0, i as int)),
                value == hex_value(digits.subrange(0, i as int)),
                value < sixteen_to(i as nat),
            decreases 6 - i,
        {
            let b: u8 = bytes[start + i];
            assert(b == digits[i as int]);
            let d: u8 = if 0x30 <= b && b <= 0x39 {
                b - 0x30
            } else if 0x41 <= b && b <= 0x46 {
                b - 0x41 + 10
            } else if 0x61 <= b && b <= 0x66 {
                b - 0x61 + 10
            } else {
                assert(!is_hex_digit(digits[i as int]));
                return Err(Error::IllegalCharOnConversion);
            };
            proof {
                let next = digits.subrange(0, i + 1);
                assert(next.drop_last() =~= digits.subrange(0, i as int));
                assert(next.last() == b);
                reveal_with_fuel(sixteen_to, 8);
                assert(sixteen_to(6) == 0x100_0000);
                assert(sixteen_to((i + 1) as nat) == 16 * sixteen_to(i as nat));
                assert(sixteen_to((i + 1) as nat) <= sixteen_to(6)) by {
                    sixteen_to_grows((i + 1) as nat, 6);
                }
            }
            value = value * 16 + d as u32;
            i += 1;
        }
        assert(digits.subrange(0, 6) =~= digits);
        Ok(Color::Hex(value))
    }

    /// The colour of a code, if the number is one.
    pub fn try_from_hex(value: Hex) -> (r: Result<Self, Error>)
        ensures
            r == parse_hex(value),
    {
        if value > HEX_MAX {
            return Err(Error::ValueOutOf24BitRGBRange);
        }
        Ok(Color::Hex(value))
    }

    pub fn hex(&self) -> (code: u32)
        ensures
            code == self.hex_spec(),
    {
        match self {
            Color::Hex(code) => *code,
            Color::Rgb((r, g, b)) => pack_channels(*r, *g, *b),
            Color::Rgba((r, g, b, _)) => pack_channels(*r, *g, *b),
        }
    }

    pub fn rgb(&self) -> (c: Rgb)
        ensures
            c == self.rgb_spec(),
    {
        match self {
            Color::Hex(code) => unpack_channels(*code),
            Color::Rgb((r, g, b)) => (*r, *g, *b),
            Color::Rgba((r, g, b, _)) => (*r, *g, *b),
        }
    }

    pub fn rgba(&self) -> (c: Rgba)
        ensures
            c == self.rgba_spec(),
    {
        match self {
            Color::Hex(code) => {
                let (r, g, b) = unpack_channels(*code);
                (r, g, b, ALPHA_ONE)
            },
            Color::Rgb((r, g, b)) => (*r, *g, *b, ALPHA_ONE),
            Color::Rgba((r, g, b, a)) => (*r, *g, *b, *a),
        }
    }

    pub fn hex_rep(&self) -> (s: String)
        ensures
            s@ == self.hex_rep_spec(),
    {
        let mut s = String::from_str("#");
        push_hex_padded(&mut s, self.hex(), 6);
        s
    }

    pub fn rgb_rep(&self) -> (s: String)
        ensures
            s@ == self.rgb_rep_spec(),
    {
        let (r, g, b) = self.rgb();
        let mut s = String::from_str("rgb(");
        push_decimal(&mut s, r as u128);
        s.append(", ");
        push_decimal(&mut s, g as u128);
        s.append(", ");
        push_decimal(&mut s, b as u128);
        s.append(")");
        s
    }

    /// The colour with its alpha channel, as text. `alpha` is the numeral of
    /// the alpha that `rgba` returns.
    pub fn rgba_rep(&self, alpha: &str) -> (s: String)
        ensures
            s@ == self.rgba_rep_spec(alpha@),
    {
        let (r, g, b) = self.rgb();
        let mut s = String::from_str("rgba(");
        push_decimal(&mut s, r as u128);
        s.append(", ");
        push_decimal(&mut s, g as u128);
        s.append(", ");
        push_decimal(&mut s, b as u128);
        s.append(", ");
        s.append(alpha);
        s.append(")");
        s
    }

    /// The colour as text, in the form it is held in. `alpha` is the numeral
    /// of the alpha channel; a colour without one does not read it.
    pub fn to_text(&self, alpha: &str) -> (s: String)
        ensures
            s@ == self.text(alpha@),
    {
        match self {
            Color::Hex(_) => self.hex_rep(),
            Color::Rgb(_) => self.rgb_rep(),
            Color::Rgba(_) => self.rgba_rep(alpha),
        }
    }
}

/// Packing the channels of a code gives the code back, and the channels of a
/// packed code are the channels that were packed.
pub proof fn channels_round_trip(code: u32, r: u8, g: u8, b: u8)
    ensures
        code <= HEX_MAX ==> Color::Rgb(Color::Hex(code).rgb_spec()).hex_spec() == code,
        Color::Hex(Color::Rgb((r, g, b)).hex_spec()).rgb_spec() == (r, g, b),
        Color::Rgb((r, g, b)).hex_spec() <= HEX_MAX,
{
}

/// Reading the text that a colour's code is written as gives the colour of
/// that code back.
pub proof fn hex_rep_round_trip(c: Color)
    requires
        c.hex_spec() <= HEX_MAX,
    ensures
        parse_hex_rep(vstd::utf8::encode_utf8(c.hex_rep_spec())) == Ok::<Color, Error>(
            Color::Hex(c.hex_spec()),
        ),
{
    let n = c.hex_spec() as nat;
    let digits = hex_padded(n, 6);
    let chars = c.hex_rep_spec();
    let bytes = vstd::utf8::encode_utf8(chars);
    reveal_strlit("#");
    assert(sixteen_to(6) == 0x100_0000) by {
        reveal_with_fuel(sixteen_to, 8);
    }
    hex_padded_reads_back(n, 6);
    assert(chars =~= seq!['#'] + digits);
    assert(vstd::utf8::is_ascii_chars(chars));
    vstd::utf8::is_ascii_chars_encode_utf8(chars);
    assert(bytes[0] == chars[0] as u8);
    assert(bytes.drop_first() =~= ascii_bytes(digits)) by {
        assert forall|i: int| 0 <= i < 6 implies bytes.drop_first()[i] == ascii_bytes(digits)[i] by {
            assert(bytes[i + 1] == chars[i + 1] as u8);
        }
    }
    let rest = bytes.drop_first();
    assert(is_hex_digit(rest[0]));
    assert(strip_hashes(rest) == rest);
    assert(strip_hashes(bytes) == rest);
}

/// A text that is read as a colour is read as the colour of a code of at
/// most 24 bits, and writing that colour's code and reading it again gives
/// the same colour.
pub proof fn parsed_writes_back(bytes: Seq<u8>, c: Color)
    requires
        parse_hex_rep(bytes) == Ok::<Color, Error>(c),
    ensures
        c is Hex,
        c.hex_spec() <= HEX_MAX,
        parse_hex_rep(vstd::utf8::encode_utf8(c.hex_rep_spec())) == Ok::<Color, Error>(c),
{
    let digits = strip_hashes(bytes);
    hex_value_bound(digits);
    assert(sixteen_to(6) == 0x100_0000) by {
        reveal_with_fuel(sixteen_to, 8);
    }
    hex_rep_round_trip(c);
}

/// Bringing an alpha into range twice is bringing it into range once, and an
/// alpha that is a number ends between 0 and 1, the negative zero counted as
/// zero.
pub proof fn clamp_alpha_settles(a: u32)
    ensures
        clamp_alpha(clamp_alpha(a)) == clamp_alpha(a),
        alpha_is_number(a) ==> clamp_alpha(a) <= ALPHA_ONE || clamp_alpha(a) == 0x8000_0000,
        alpha_is_number(a) == alpha_is_number(clamp_alpha(a)),
{
}

fn pack_channels(r: u8, g: u8, b: u8) -> (code: u32)
    ensures
        code == pack(r, g, b),
        code <= HEX_MAX,
{
    let code: u32 = ((r as u32) << 16) | ((g as u32) << 8) | (b as u32);
    assert(((r as u32) << 16) | ((g as u32) << 8) | (b as u32) == (r as u32) * 0x1_0000 + (g as u32)
        * 0x100 + (b as u32)) by (bit_vector);
    code
}

fn unpack_channels(code: u32) -> (c: Rgb)
    ensures
        c == unpack(code),
{
    let r: u32 = (code >> 16) & 0xff;
    let g: u32 = (code >> 8) & 0xff;
    let b: u32 = code & 0xff;
    assert((code >> 16) & 0xff == (code / 0x1_0000) % 0x100) by (bit_vector);
    assert((code >> 8) & 0xff == (code / 0x100) % 0x100) by (bit_vector);
    assert(code & 0xff == code % 0x100) by (bit_vector);
    (r as u8, g as u8, b as u8)
}

impl Default for Color {
    /// White.
    fn default() -> (c: Self)
        ensures
            c == Color::Hex(HEX_MAX),
    {
        Color::from_hex(HEX_MAX)
    }
}

impl TryFrom<Hex> for Color {
    type Error = Error;

    fn try_from(value: Hex) -> (r: Result<Self, Error>) {
        Color::try_from_hex(value)
    }
}

impl vstd::std_specs::convert::TryFromSpecImpl<Hex> for Color {
    open spec fn obeys_try_from_spec() -> bool {
        true
    }

    open spec fn try_from_spec(value: Hex) -> Result<Self, Error> {
        parse_hex(value)
    }
}

impl<'a> TryFrom<&'a str> for Color {
    type Error = Error;

    fn try_from(value: &'a str) -> (r: Result<Self, Error>) {
        Color::from_hex_rep(value)
    }
}

impl<'a> vstd::std_specs::convert::TryFromSpecImpl<&'a str> for Color {
    open spec fn obeys_try_from_spec() -> bool {
        true
    }

    open spec fn try_from_spec(value: &'a str) -> Result<Self, Error> {
        parse_hex_rep(value.spec_bytes())
    }
}

impl TryFrom<String> for Color {
    type Error = Error;

    fn try_from(value: String) -> (r: Result<Self, Error>) {
        Color::from_hex_rep(value.as_str())
    }
}

impl vstd::std_specs::convert::TryFromSpecImpl<String> for Color {
    open spec fn obeys_try_from_spec() -> bool {
        true
    }

    open spec fn try_from_spec(value: String) -> Result<Self, Error> {
        parse_hex_rep(vstd::utf8::encode_utf8(value@))
    }
}

impl From<Rgb> for Color {
    fn from(value: Rgb) -> (c: Self) {
        Color::from_rgb(value)
    }
}

impl vstd::std_specs::convert::FromSpecImpl<Rgb> for Color {
    open spec fn obeys_from_spec() -> bool {
        true
    }

    open spec fn from_spec(value: Rgb) -> Self {
        Color::Rgb(value)
    }
}

impl From<Rgba> for Color {
    fn from(value: Rgba) -> (c: Self) {
        Color::from_rgba(value)
    }
}

impl vstd::std_specs::convert::FromSpecImpl<Rgba> for Color {
    open spec fn obeys_from_spec() -> bool {
        true
    }

    open spec fn from_spec(value: Rgba) -> Self {
        Color::Rgba((value.0, value.1, value.2, clamp_alpha(value.3)))
    }
}

} // verus!

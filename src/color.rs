//! Colors: the canonical 8-bit RGBA value, the hexadecimal notation, and the
//! CSS color grammars.

use vstd::prelude::*;
use vstd::string::*;
use crate::text::{hex_byte, push_hex_byte};

verus! {

/// A fully resolved color, 8 bits per channel.
#[derive(Clone, Copy, Debug, PartialEq, Eq, Structural)]
pub struct Rgba {
    pub red: u8,
    pub green: u8,
    pub blue: u8,
    pub alpha: u8,
}

impl Rgba {
    /// Opaque black, the default foreground.
    pub open spec fn spec_black() -> Rgba {
        Rgba { red: 0, green: 0, blue: 0, alpha: 255 }
    }

    /// Opaque white, the default background.
    pub open spec fn spec_white() -> Rgba {
        Rgba { red: 255, green: 255, blue: 255, alpha: 255 }
    }

    /// Opaque black.
    pub fn black() -> (r: Rgba)
        ensures
            r == Rgba::spec_black(),
    {
        Rgba { red: 0, green: 0, blue: 0, alpha: 255 }
    }

    /// Opaque white.
    pub fn white() -> (r: Rgba)
        ensures
            r == Rgba::spec_white(),
    {
        Rgba { red: 255, green: 255, blue: 255, alpha: 255 }
    }

    /// A color from its four channels.
    pub fn from_rgba8(red: u8, green: u8, blue: u8, alpha: u8) -> (r: Rgba)
        ensures
            r == (Rgba { red, green, blue, alpha }),
    {
        Rgba { red, green, blue, alpha }
    }

    /// The color with no alpha channel dropped: `#rrggbb` when opaque,
    /// `#rrggbbaa` otherwise.
    pub open spec fn spec_css_hex(self) -> Seq<char> {
        if self.alpha == 255 {
            seq!['#'] + hex_byte(self.red) + hex_byte(self.green) + hex_byte(self.blue)
        } else {
            seq!['#'] + hex_byte(self.red) + hex_byte(self.green) + hex_byte(self.blue)
                + hex_byte(self.alpha)
        }
    }

    /// The CSS hexadecimal notation of the color.
    pub fn to_css_hex(&self) -> (r: String)
        ensures
            r@ == self.spec_css_hex(),
    {
        let mut s = String::new();
        s.append("#");
        proof {
            reveal_strlit("#");
        }
        push_hex_byte(&mut s, self.red);
        push_hex_byte(&mut s, self.green);
        push_hex_byte(&mut s, self.blue);
        if self.alpha != 255 {
            push_hex_byte(&mut s, self.alpha);
        }
        assert(s@ =~= self.spec_css_hex());
        s
    }
}

/// A color in hexadecimal notation: three channels and, where the notation
/// had one, an alpha channel.
#[derive(Clone, Copy, Debug, PartialEq, Eq, Structural)]
pub struct Color {
    pub red: u8,
    pub green: u8,
    pub blue: u8,
    pub alpha: Option<u8>,
}

/// The error of `u8::from_str_radix`, carried through as it is.
#[verifier::external_type_specification]
#[verifier::external_body]
pub struct ExParseIntError(std::num::ParseIntError);

/// Why a hexadecimal color was refused.
#[derive(Debug)]
pub enum FromHexError {
    /// A channel is not a hexadecimal number.
    ParseIntError(std::num::ParseIntError),
    /// The notation has neither 3, 4, 6 nor 8 digits.
    HexFormatError,
}

impl From<std::num::ParseIntError> for FromHexError {
    fn from(error: std::num::ParseIntError) -> (r: Self) {
        FromHexError::ParseIntError(error)
    }
}

impl vstd::std_specs::convert::FromSpecImpl<std::num::ParseIntError> for FromHexError {
    open spec fn obeys_from_spec() -> bool {
        true
    }

    open spec fn from_spec(error: std::num::ParseIntError) -> FromHexError {
        FromHexError::ParseIntError(error)
    }
}

/// Relies on the `Display` of `std::num::ParseIntError`.
#[verifier::external_body]
fn int_error_text(error: &std::num::ParseIntError) -> String {
    error.to_string()
}

impl FromHexError {
    /// The message that describes the error.
    pub fn message(&self) -> (r: String)
        ensures
            self is HexFormatError ==> r@ == "Invalid hexadecimal notation"@,
    {
        match self {
            FromHexError::ParseIntError(e) => int_error_text(e),
            FromHexError::HexFormatError => String::from_str("Invalid hexadecimal notation"),
        }
    }
}

/// A hexadecimal digit, of either case.
pub open spec fn is_hex_char(c: char) -> bool {
    ('0' <= c && c <= '9') || ('a' <= c && c <= 'f') || ('A' <= c && c <= 'F')
}

/// The value of a hexadecimal digit.
pub open spec fn hex_value(c: char) -> nat {
    if '0' <= c && c <= '9' {
        (c as u32 - '0' as u32) as nat
    } else if 'a' <= c && c <= 'f' {
        (c as u32 - 'a' as u32 + 10) as nat
    } else {
        (c as u32 - 'A' as u32 + 10) as nat
    }
}

/// Two characters that read as a byte in base 16: two hexadecimal digits.
pub open spec fn pair_ok(hi: char, lo: char) -> bool {
    is_hex_char(hi) && is_hex_char(lo)
}

/// The byte that two hexadecimal digits read as.
pub open spec fn pair_value(hi: char, lo: char) -> u8 {
    (hex_value(hi) * 16 + hex_value(lo)) as u8
}

/// The notation without its leading `#`, if it has one.
pub open spec fn strip_hash(s: Seq<char>) -> Seq<char> {
    if s.len() > 0 && s[0] == '#' {
        s.subrange(1, s.len() as int)
    } else {
        s
    }
}

/// The digit counts that the notation admits.
pub open spec fn valid_length(h: Seq<char>) -> bool {
    h.len() == 3 || h.len() == 4 || h.len() == 6 || h.len() == 8
}

/// How many channels a digit string of valid length holds.
pub open spec fn channel_count(h: Seq<char>) -> int {
    if h.len() == 3 || h.len() == 6 {
        3
    } else {
        4
    }
}

/// The two characters that give channel `i`: a short form repeats its digit.
pub open spec fn channel_chars(h: Seq<char>, i: int) -> (char, char) {
    if h.len() <= 4 {
        (h[i], h[i])
    } else {
        (h[2 * i], h[2 * i + 1])
    }
}

/// Every channel of the digit string reads as a byte.
pub open spec fn channels_ok(h: Seq<char>) -> bool {
    forall|i: int| 0 <= i < channel_count(h) ==> pair_ok(#[trigger] channel_chars(h, i).0, channel_chars(h, i).1)
}

/// The value of channel `i` of the digit string.
pub open spec fn channel(h: Seq<char>, i: int) -> u8 {
    pair_value(channel_chars(h, i).0, channel_chars(h, i).1)
}

/// The color that a hexadecimal notation denotes, if any.
pub open spec fn spec_parse_hex(s: Seq<char>) -> Option<Color> {
    let h = strip_hash(s);
    if valid_length(h) && channels_ok(h) {
        Some(
            Color {
                red: channel(h, 0),
                green: channel(h, 1),
                blue: channel(h, 2),
                alpha: if channel_count(h) == 4 {
                    Some(channel(h, 3))
                } else {
                    None
                },
            },
        )
    } else {
        None
    }
}

/// Relies on `u8::from_str_radix` in base 16 on the one character: a
/// digit reads as its value, anything else, a sign too, is an error.
#[verifier::external_body]
fn parse_digit(c: char) -> (r: Result<u8, std::num::ParseIntError>)
    ensures
        r is Ok <==> is_hex_char(c),
        r matches Ok(v) ==> v == hex_value(c),
{
    let mut buf = [0u8; 4];
    u8::from_str_radix(c.encode_utf8(&mut buf), 16)
}

/// Reads two characters as a byte in base 16, digit by digit.
fn parse_pair(hi: char, lo: char) -> (r: Result<u8, std::num::ParseIntError>)
    ensures
        r is Ok <==> pair_ok(hi, lo),
        r matches Ok(v) ==> v == pair_value(hi, lo),
{
    let h = match parse_digit(hi) {
        Ok(v) => v,
        Err(e) => return Err(e),
    };
    let l = match parse_digit(lo) {
        Ok(v) => v,
        Err(e) => return Err(e),
    };
    assert(h < 16 && l < 16);
    Ok(h * 16 + l)
}

impl Color {
    /// The lowercase hexadecimal notation, without `#`.
    pub open spec fn spec_hex(self) -> Seq<char> {
        match self.alpha {
            Some(a) => hex_byte(self.red) + hex_byte(self.green) + hex_byte(self.blue) + hex_byte(a),
            None => hex_byte(self.red) + hex_byte(self.green) + hex_byte(self.blue),
        }
    }

    /// The color with a missing alpha channel taken as opaque.
    pub open spec fn spec_rgba(self) -> Rgba {
        Rgba {
            red: self.red,
            green: self.green,
            blue: self.blue,
            alpha: match self.alpha {
                Some(a) => a,
                None => 255,
            },
        }
    }

    /// Returns the components as an array.
    pub fn channels(&self) -> (r: [u8; 4])
        ensures
            r@ == seq![self.red, self.green, self.blue, self.spec_rgba().alpha],
    {
        let alpha = match self.alpha {
            Some(a) => a,
            None => u8::MAX,
        };
        let r = [self.red, self.green, self.blue, alpha];
        assert(r@ =~= seq![self.red, self.green, self.blue, self.spec_rgba().alpha]);
        r
    }

    /// The color as 8-bit RGBA.
    pub fn to_rgba(&self) -> (r: Rgba)
        ensures
            r == self.spec_rgba(),
    {
        let alpha = match self.alpha {
            Some(a) => a,
            None => u8::MAX,
        };
        Rgba { red: self.red, green: self.green, blue: self.blue, alpha }
    }

    /// The lowercase hexadecimal notation, 6 or 8 digits without `#`.
    pub fn to_hex_string(&self) -> (r: String)
        ensures
            r@ == self.spec_hex(),
    {
        let mut s = String::new();
        push_hex_byte(&mut s, self.red);
        push_hex_byte(&mut s, self.green);
        push_hex_byte(&mut s, self.blue);
        if let Some(a) = self.alpha {
            push_hex_byte(&mut s, a);
        }
        assert(s@ =~= self.spec_hex());
        s
    }

    /// The notation with a leading `#`.
    pub fn to_string(&self) -> (r: String)
        ensures
            r@ == seq!['#'] + self.spec_hex(),
    {
        let mut s = String::new();
        s.append("#");
        let hex = self.to_hex_string();
        s.append(hex.as_str());
        proof {
            reveal_strlit("#");
        }
        assert(s@ =~= seq!['#'] + self.spec_hex());
        s
    }

    /// Reads channel `i` of the digits that start at `start`.
    fn channel_at(hex: &str, start: usize, len: usize, i: usize) -> (r: Result<u8, FromHexError>)
        requires
            start + len == hex@.len(),
            start <= 1,
            len == 3 || len == 4 || len == 6 || len == 8,
            i < channel_count(hex@.subrange(start as int, hex@.len() as int)),
        ensures
            ({
                let h = hex@.subrange(start as int, hex@.len() as int);
                &&& r is Ok <==> pair_ok(channel_chars(h, i as int).0, channel_chars(h, i as int).1)
                &&& r matches Ok(v) ==> v == channel(h, i as int)
                &&& r is Err ==> r matches Err(FromHexError::ParseIntError(_))
            }),
    {
        let (a, b) = if len <= 4 {
            (start + i, start + i)
        } else {
            (start + 2 * i, start + 2 * i + 1)
        };
        match parse_pair(hex.get_char(a), hex.get_char(b)) {
            Ok(v) => Ok(v),
            Err(e) => Err(FromHexError::ParseIntError(e)),
        }
    }

    /// Parses the hexadecimal notation `RGB`, `RGBA`, `RRGGBB` or `RRGGBBAA`,
    /// with or without a leading `#`; a short form repeats each digit.
    pub fn parse_hex(hex: &str) -> (r: Result<Color, FromHexError>)
        ensures
            r matches Err(FromHexError::HexFormatError) <==> !valid_length(strip_hash(hex@)),
            r matches Err(FromHexError::ParseIntError(_)) <==> valid_length(strip_hash(hex@))
                && !channels_ok(strip_hash(hex@)),
            r is Ok <==> spec_parse_hex(hex@) is Some,
            r matches Ok(c) ==> spec_parse_hex(hex@) == Some(c),
    {
        let n = hex.unicode_len();
        let start: usize = if n > 0 && hex.get_char(0) == '#' {
            1
        } else {
            0
        };
        let len = n - start;
        let ghost h = hex@.subrange(start as int, hex@.len() as int);
        assert(h =~= strip_hash(hex@));
        if !(len == 3 || len == 4 || len == 6 || len == 8) {
            return Err(FromHexError::HexFormatError);
        }
        let red = match Color::channel_at(hex, start, len, 0) {
            Ok(v) => v,
            Err(e) => return Err(e),
        };
        let green = match Color::channel_at(hex, start, len, 1) {
            Ok(v) => v,
            Err(e) => return Err(e),
        };
        let blue = match Color::channel_at(hex, start, len, 2) {
            Ok(v) => v,
            Err(e) => return Err(e),
        };
        let alpha = if len == 4 || len == 8 {
            match Color::channel_at(hex, start, len, 3) {
                Ok(v) => Some(v),
                Err(e) => return Err(e),
            }
        } else {
            None
        };
        assert(channels_ok(h));
        Ok(Color { red, green, blue, alpha })
    }
}

impl std::str::FromStr for Color {
    type Err = FromHexError;

    fn from_str(hex: &str) -> (r: Result<Self, Self::Err>)
        ensures
            r matches Err(FromHexError::HexFormatError) <==> !valid_length(strip_hash(hex@)),
            r matches Err(FromHexError::ParseIntError(_)) <==> valid_length(strip_hash(hex@))
                && !channels_ok(strip_hash(hex@)),
            r is Ok <==> spec_parse_hex(hex@) is Some,
            r matches Ok(c) ==> spec_parse_hex(hex@) == Some(c),
    {
        Color::parse_hex(hex)
    }
}

/// The CSS color parser's error, carried through as it is.
#[verifier::external_type_specification]
#[verifier::external_body]
pub struct ExParseColorError(csscolorparser::ParseColorError);

/// A color expression that none of the grammars accepts; the cause names the
/// grammar that it came closest to.
#[derive(Clone, Copy, Debug)]
pub struct ColorError {
    pub cause: csscolorparser::ParseColorError,
}

/// The color that the CSS color parser makes of an expression, converted to
/// 8 bits per channel, or `None` where it refuses the expression.
pub uninterp spec fn css_color(s: Seq<char>) -> Option<Rgba>;

/// Relies on `csscolorparser::parse` for the named and functional grammars,
/// and on `Color::to_rgba8` for the rounding of each channel to 8 bits.
#[verifier::external_body]
fn parse_css(s: &str) -> (r: Result<Rgba, csscolorparser::ParseColorError>)
    ensures
        r is Ok <==> css_color(s@) is Some,
        r matches Ok(c) ==> css_color(s@) == Some(c),
{
    csscolorparser::parse(s).map(|c| {
        let [red, green, blue, alpha] = c.to_rgba8();
        Rgba { red, green, blue, alpha }
    })
}

/// Parses a color expression: the hexadecimal notation first, then the
/// named and functional CSS grammars.
pub fn parse_color(s: &str) -> (r: Result<Rgba, ColorError>)
    ensures
        spec_parse_hex(s@) matches Some(c) ==> r == Ok::<Rgba, ColorError>(c.spec_rgba()),
        spec_parse_hex(s@) is None ==> (r is Ok <==> css_color(s@) is Some),
        spec_parse_hex(s@) is None && r is Ok ==> css_color(s@) == Some(r->Ok_0),
{
    match Color::parse_hex(s) {
        Ok(c) => Ok(c.to_rgba()),
        Err(_) => match parse_css(s) {
            Ok(c) => Ok(c),
            Err(cause) => Err(ColorError { cause }),
        },
    }
}

} // verus!

verus! {

/// Each lowercase hexadecimal digit reads back as its own value.
pub proof fn lemma_hex_digit(d: int)
    requires
        0 <= d < 16,
    ensures
        is_hex_char(crate::text::hex_digits()[d]),
        hex_value(crate::text::hex_digits()[d]) == d,
        crate::text::hex_digits()[d] != '+',
        crate::text::hex_digits()[d] != '#',
        !('A' <= crate::text::hex_digits()[d] && crate::text::hex_digits()[d] <= 'F'),
{
    let t = crate::text::hex_digits();
    if d == 0 { assert(t[0] == '0'); }
    else if d == 1 { assert(t[1] == '1'); }
    else if d == 2 { assert(t[2] == '2'); }
    else if d == 3 { assert(t[3] == '3'); }
    else if d == 4 { assert(t[4] == '4'); }
    else if d == 5 { assert(t[5] == '5'); }
    else if d == 6 { assert(t[6] == '6'); }
    else if d == 7 { assert(t[7] == '7'); }
    else if d == 8 { assert(t[8] == '8'); }
    else if d == 9 { assert(t[9] == '9'); }
    else if d == 10 { assert(t[10] == 'a'); }
    else if d == 11 { assert(t[11] == 'b'); }
    else if d == 12 { assert(t[12] == 'c'); }
    else if d == 13 { assert(t[13] == 'd'); }
    else if d == 14 { assert(t[14] == 'e'); }
    else { assert(t[15] == 'f'); }
}

/// The two digits that a byte is written as read back as that byte.
proof fn lemma_hex_byte(b: u8)
    ensures
        pair_ok(hex_byte(b)[0], hex_byte(b)[1]),
        pair_value(hex_byte(b)[0], hex_byte(b)[1]) == b,
        hex_byte(b)[0] != '#',
{
    lemma_hex_digit((b / 16) as int);
    lemma_hex_digit((b % 16) as int);
}

/// The CSS hexadecimal notation: `#` and 6 or 8 hexadecimal digits.
pub open spec fn is_css_hex(s: Seq<char>) -> bool {
    &&& s.len() == 7 || s.len() == 9
    &&& s[0] == '#'
    &&& forall|i: int| 1 <= i < s.len() ==> is_hex_char(#[trigger] s[i])
}

/// The CSS hexadecimal notation of a color has that form.
pub proof fn lemma_css_hex_form(c: Rgba)
    ensures
        is_css_hex(c.spec_css_hex()),
{
    let s = c.spec_css_hex();
    let (r, g, b, a) = (hex_byte(c.red), hex_byte(c.green), hex_byte(c.blue), hex_byte(c.alpha));
    lemma_hex_digit((c.red / 16) as int);
    lemma_hex_digit((c.red % 16) as int);
    lemma_hex_digit((c.green / 16) as int);
    lemma_hex_digit((c.green % 16) as int);
    lemma_hex_digit((c.blue / 16) as int);
    lemma_hex_digit((c.blue % 16) as int);
    lemma_hex_digit((c.alpha / 16) as int);
    lemma_hex_digit((c.alpha % 16) as int);
    assert(s[0] == '#');
    assert(s[1] == r[0] && s[2] == r[1] && s[3] == g[0] && s[4] == g[1] && s[5] == b[0] && s[6]
        == b[1]);
    if c.alpha != 255 {
        assert(s[7] == a[0] && s[8] == a[1]);
    }
}

/// Writing a parsed hexadecimal color back out in lowercase hexadecimal, and
/// reading that again, gives the same color: the same channels, and an alpha
/// channel exactly where the first notation had one.
pub proof fn lemma_hex_round_trip(s: Seq<char>)
    requires
        spec_parse_hex(s) is Some,
    ensures
        spec_parse_hex(spec_parse_hex(s)->Some_0.spec_hex()) == spec_parse_hex(s),
{
    let c = spec_parse_hex(s)->Some_0;
    let t = c.spec_hex();
    let (r, g, b) = (hex_byte(c.red), hex_byte(c.green), hex_byte(c.blue));
    lemma_hex_byte(c.red);
    lemma_hex_byte(c.green);
    lemma_hex_byte(c.blue);
    assert(t.subrange(0, 6) =~= r + g + b);
    assert(t[0] == r[0] && t[1] == r[1]);
    assert(t[2] == g[0] && t[3] == g[1]);
    assert(t[4] == b[0] && t[5] == b[1]);
    match c.alpha {
        Some(a) => {
            lemma_hex_byte(a);
            assert(t.len() == 8);
            assert(t[6] == hex_byte(a)[0] && t[7] == hex_byte(a)[1]);
            assert(channel_chars(t, 3) == (hex_byte(a)[0], hex_byte(a)[1]));
        },
        None => {
            assert(t.len() == 6);
        },
    }
    assert(strip_hash(t) == t);
    assert(channel_chars(t, 0) == (r[0], r[1]));
    assert(channel_chars(t, 1) == (g[0], g[1]));
    assert(channel_chars(t, 2) == (b[0], b[1]));
    assert(channels_ok(t));
}

/// A byte's two lowercase digits are hexadecimal digits that read as its
/// high and low halves.
proof fn lemma_byte_digits(b: u8)
    ensures
        hex_value(hex_byte(b)[0]) == b / 16,
        hex_value(hex_byte(b)[1]) == b % 16,
        is_hex_char(hex_byte(b)[0]) && !('A' <= hex_byte(b)[0] && hex_byte(b)[0] <= 'F'),
        is_hex_char(hex_byte(b)[1]) && !('A' <= hex_byte(b)[1] && hex_byte(b)[1] <= 'F'),
{
    lemma_hex_digit((b / 16) as int);
    lemma_hex_digit((b % 16) as int);
}

/// The digits of a channel read back as the digits that gave it.
proof fn lemma_channel_digits(h: Seq<char>, i: int)
    requires
        valid_length(h),
        channels_ok(h),
        0 <= i < channel_count(h),
    ensures
        hex_value(hex_byte(channel(h, i))[0]) == hex_value(channel_chars(h, i).0),
        hex_value(hex_byte(channel(h, i))[1]) == hex_value(channel_chars(h, i).1),
{
    let (hi, lo) = channel_chars(h, i);
    assert(pair_ok(hi, lo));
    assert(hex_value(hi) < 16 && hex_value(lo) < 16);
    let v = channel(h, i);
    assert(v as int == hex_value(hi) * 16 + hex_value(lo));
    lemma_byte_digits(v);
}

/// The lowercase notation of a parsed hexadecimal color keeps its digits:
/// two lowercase digits per channel, 6 or 8 in all as the notation had an
/// alpha channel or not, each pair reading, up to case, as the digits that
/// gave the channel (a short-form digit read twice).
pub proof fn lemma_hex_digits_kept(s: Seq<char>)
    requires
        spec_parse_hex(s) is Some,
    ensures
        ({
            let h = strip_hash(s);
            let t = spec_parse_hex(s)->Some_0.spec_hex();
            &&& t.len() == 2 * channel_count(h)
            &&& forall|i: int|
                0 <= i < channel_count(h) ==> hex_value(#[trigger] t[2 * i]) == hex_value(
                    channel_chars(h, i).0,
                ) && hex_value(t[2 * i + 1]) == hex_value(channel_chars(h, i).1)
            &&& forall|k: int|
                0 <= k < t.len() ==> is_hex_char(#[trigger] t[k]) && !('A' <= t[k] && t[k] <= 'F')
        }),
{
    let h = strip_hash(s);
    let c = spec_parse_hex(s)->Some_0;
    let t = c.spec_hex();
    let (r, g, b) = (hex_byte(c.red), hex_byte(c.green), hex_byte(c.blue));
    lemma_byte_digits(c.red);
    lemma_byte_digits(c.green);
    lemma_byte_digits(c.blue);
    lemma_channel_digits(h, 0);
    lemma_channel_digits(h, 1);
    lemma_channel_digits(h, 2);
    assert(t[0] == r[0] && t[1] == r[1] && t[2] == g[0] && t[3] == g[1] && t[4] == b[0] && t[5]
        == b[1]);
    match c.alpha {
        Some(a) => {
            lemma_byte_digits(a);
            lemma_channel_digits(h, 3);
            assert(t[6] == hex_byte(a)[0] && t[7] == hex_byte(a)[1]);
            assert forall|i: int| 0 <= i < channel_count(h) implies hex_value(#[trigger] t[2 * i])
                == hex_value(channel_chars(h, i).0) && hex_value(t[2 * i + 1]) == hex_value(
                channel_chars(h, i).1,
            ) by {
                if i == 0 {} else if i == 1 {} else if i == 2 {} else {}
            }
            assert forall|k: int| 0 <= k < t.len() implies is_hex_char(#[trigger] t[k]) && !('A'
                <= t[k] && t[k] <= 'F') by {
                if k == 0 {} else if k == 1 {} else if k == 2 {} else if k == 3 {} else if k == 4 {
                } else if k == 5 {} else if k == 6 {} else {}
            }
        },
        None => {
            assert forall|i: int| 0 <= i < channel_count(h) implies hex_value(#[trigger] t[2 * i])
                == hex_value(channel_chars(h, i).0) && hex_value(t[2 * i + 1]) == hex_value(
                channel_chars(h, i).1,
            ) by {
                if i == 0 {} else if i == 1 {} else {}
            }
            assert forall|k: int| 0 <= k < t.len() implies is_hex_char(#[trigger] t[k]) && !('A'
                <= t[k] && t[k] <= 'F') by {
                if k == 0 {} else if k == 1 {} else if k == 2 {} else if k == 3 {} else if k == 4 {
                } else {}
            }
        },
    }
}

/// The long form of a short hexadecimal notation: each digit twice.
pub open spec fn doubled(h: Seq<char>) -> Seq<char> {
    Seq::new(2 * h.len(), |j: int| h[j / 2])
}

/// A short form (`#abc`, `#abcd`) denotes the same color as the long form
/// that repeats each of its digits (`#aabbcc`, `#aabbccdd`), and is refused
/// exactly where that long form is.
pub proof fn lemma_shorthand_expansion(h: Seq<char>)
    requires
        h.len() == 3 || h.len() == 4,
    ensures
        spec_parse_hex(seq!['#'] + h) == spec_parse_hex(seq!['#'] + doubled(h)),
{
    let d = doubled(h);
    assert(strip_hash(seq!['#'] + h) =~= h);
    assert(strip_hash(seq!['#'] + d) =~= d);
    assert forall|i: int| 0 <= i < channel_count(h) implies #[trigger] channel_chars(h, i)
        == channel_chars(d, i) by {
        assert(d[2 * i] == h[i]);
        assert(d[2 * i + 1] == h[i]);
    }
    assert(channel_count(h) == channel_count(d));
    assert(channels_ok(h) == channels_ok(d));
}

} // verus!

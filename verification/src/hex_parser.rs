//! Colours written in hexadecimal: `RRGGBB` or `RRGGBBAA`, with or without
//! a leading `#`.

use vstd::prelude::*;
use crate::pattern::{captures, groups_view, regex_captures, regex_compiles};

verus! {

/// Why a colour could not be read.
#[derive(Clone, Copy, Debug, PartialEq, Eq)]
pub enum ParseError {
    /// The pattern that describes the notation was rejected.
    Regex,
    /// A character that is no hexadecimal digit.
    InvalidHexDigit(char),
    /// A hexadecimal number that 32 bits cannot hold.
    HexOverflow,
    /// A text that is no hexadecimal colour.
    InvalidHexColor,
    /// A text that is no list of three or four channels.
    InvalidInlineRgb,
    /// A channel that is no decimal number of 32 bits.
    InvalidNumber,
}

/// A colour read from hexadecimal notation.
#[derive(Clone, Copy, Debug, PartialEq, Eq)]
pub struct HexColor {
    /// The red component of the color.
    pub r: u32,
    /// The green component of the color.
    pub g: u32,
    /// The blue component of the color.
    pub b: u32,
    /// The alpha component of the color.
    pub alpha: Option<u32>,
}

/// The pattern of a hexadecimal colour. Its groups 1 to 4 are red, green,
/// blue and alpha.
pub const HEX_COLOR_PATTERN: &'static str =
    "^#?(?<r>[0-9A-F]{2})(?<g>[0-9A-F]{2})(?<b>[0-9A-F]{2})(?<alpha>[0-9A-F]{2})?$";

/// The value of a hexadecimal digit, in either case.
pub open spec fn hex_digit(c: char) -> Option<u32> {
    if '0' <= c <= '9' {
        Some((c as u32 - '0' as u32) as u32)
    } else if 'A' <= c <= 'F' {
        Some((c as u32 - 'A' as u32 + 10) as u32)
    } else if 'a' <= c <= 'f' {
        Some((c as u32 - 'a' as u32 + 10) as u32)
    } else {
        None
    }
}

/// Every character of `s` is a hexadecimal digit.
pub open spec fn all_hex(s: Seq<char>) -> bool {
    forall|i: int| 0 <= i < s.len() ==> hex_digit(#[trigger] s[i]) is Some
}

/// The first character of `s` that is no hexadecimal digit, where there is
/// one.
pub open spec fn first_non_hex(s: Seq<char>) -> char
    decreases s.len(),
{
    if s.len() == 0 {
        '\0'
    } else if hex_digit(s[0]) is None {
        s[0]
    } else {
        first_non_hex(s.drop_first())
    }
}

/// The number that the hexadecimal digits of `s` write, most significant
/// digit first. The empty text writes zero.
pub open spec fn hex_value(s: Seq<char>) -> nat
    decreases s.len(),
{
    if s.len() == 0 {
        0
    } else {
        hex_value(s.drop_last()) * 16 + hex_digit(s.last())->0 as nat
    }
}

/// What [`parse_hex`] makes of `s`.
pub open spec fn parse_hex_spec(s: Seq<char>) -> Result<u32, ParseError> {
    if !all_hex(s) {
        Err(ParseError::InvalidHexDigit(first_non_hex(s)))
    } else if hex_value(s) > u32::MAX {
        Err(ParseError::HexOverflow)
    } else {
        Ok(hex_value(s) as u32)
    }
}

/// The value of a hexadecimal digit, in either case.
fn digit_of(c: char) -> (r: Option<u32>)
    ensures
        r == hex_digit(c),
{
    let v: u32 = c as u32;
    if 48 <= v && v <= 57 {
        Some(v - 48)
    } else if 65 <= v && v <= 70 {
        Some(v - 65 + 10)
    } else if 97 <= v && v <= 102 {
        Some(v - 97 + 10)
    } else {
        None
    }
}

/// Before the first character that is no digit, every character is one:
/// that character is the one that `first_non_hex` finds.
proof fn lemma_first_non_hex(s: Seq<char>, k: int)
    requires
        0 <= k < s.len(),
        all_hex(s.take(k)),
        hex_digit(s[k]) is None,
    ensures
        first_non_hex(s) == s[k],
        !all_hex(s),
    decreases k,
{
    if k > 0 {
        assert(s.take(k)[0] == s[0]);
        let rest = s.drop_first();
        assert forall|i: int| 0 <= i < k - 1 implies hex_digit(#[trigger] rest.take(k - 1)[i])
            is Some by {
            assert(rest.take(k - 1)[i] == s.take(k)[i + 1]);
        }
        lemma_first_non_hex(rest, k - 1);
    }
}

/// Parses a hex digit, returning it's decimal form. Valid hex digits are in
/// the following form: /([0-9A-F])+/, in either case.
///
/// Note that this function currently does not support negative digits. A
/// text with a character that is no digit fails with the first such
/// character; a number that 32 bits cannot hold fails as an overflow.
pub fn parse_hex(hex: &str) -> (r: Result<u32, ParseError>)
    ensures
        r == parse_hex_spec(hex@),
{
    let mut value: u32 = 0;
    let mut overflow: bool = false;
    for c in it: hex.chars()
        invariant
            it.seq() == hex@,
            all_hex(hex@.take(it.index())),
            !overflow ==> value == hex_value(hex@.take(it.index())),
            overflow ==> hex_value(hex@.take(it.index())) > u32::MAX,
    {
        let ghost k = it.index();
        assert(hex@.take(k + 1).drop_last() =~= hex@.take(k));
        assert(hex@.take(k + 1).last() == c);
        match digit_of(c) {
            None => {
                proof {
                    lemma_first_non_hex(hex@, k);
                }
                return Err(ParseError::InvalidHexDigit(c));
            },
            Some(digit) => {
                assert forall|i: int| 0 <= i < k + 1 implies hex_digit(
                    #[trigger] hex@.take(k + 1)[i],
                ) is Some by {
                    if i < k {
                        assert(hex@.take(k)[i] == hex@.take(k + 1)[i]);
                    }
                }
                if !overflow {
                    if value > (u32::MAX - digit) / 16 {
                        overflow = true;
                    } else {
                        value = value * 16 + digit;
                    }
                }
            },
        }
    }
    assert(hex@.take(hex@.len() as int) =~= hex@);
    if overflow {
        Err(ParseError::HexOverflow)
    } else {
        Ok(value)
    }
}

/// The channel that a capture group wrote, if the group took part in the
/// match.
pub open spec fn channel_of(group: Option<Seq<char>>) -> Result<Option<u32>, ParseError> {
    match group {
        None => Ok(None),
        Some(text) => match parse_hex_spec(text) {
            Ok(value) => Ok(Some(value)),
            Err(e) => Err(e),
        },
    }
}

/// The colour that the capture groups of [`HEX_COLOR_PATTERN`] stand for.
///
/// Without a match there is no colour, nor with groups other than the
/// whole match, red, green, blue and, if present, alpha. Of several
/// channels that cannot be read, alpha is reported first, then red, green
/// and blue.
pub open spec fn hex_color_of(groups: Option<Seq<Option<Seq<char>>>>) -> Result<
    HexColor,
    ParseError,
> {
    match groups {
        None => Err(ParseError::InvalidHexColor),
        Some(g) => if g.len() != 5 || g[1] is None || g[2] is None || g[3] is None {
            Err(ParseError::InvalidHexColor)
        } else {
            match (channel_of(g[4]), channel_of(g[1]), channel_of(g[2]), channel_of(g[3])) {
                (Err(e), _, _, _) => Err(e),
                (_, Err(e), _, _) => Err(e),
                (_, _, Err(e), _) => Err(e),
                (_, _, _, Err(e)) => Err(e),
                (Ok(alpha), Ok(r), Ok(g), Ok(b)) => Ok(
                    HexColor { r: r->0, g: g->0, b: b->0, alpha },
                ),
            }
        },
    }
}

/// What [`parse_color`] makes of `hex`.
pub open spec fn parse_color_spec(hex: Seq<char>) -> Result<HexColor, ParseError> {
    if regex_compiles(HEX_COLOR_PATTERN@) {
        hex_color_of(regex_captures(HEX_COLOR_PATTERN@, hex))
    } else {
        Err(ParseError::Regex)
    }
}

/// Reads the channel that a capture group wrote.
fn read_channel(group: &Option<String>) -> (r: Result<Option<u32>, ParseError>)
    ensures
        r == channel_of(
            match *group {
                None => None,
                Some(text) => Some(text@),
            },
        ),
{
    match group {
        None => Ok(None),
        Some(text) => match parse_hex(text.as_str()) {
            Ok(value) => Ok(Some(value)),
            Err(e) => Err(e),
        },
    }
}

/// Builds the colour from the capture groups that [`HEX_COLOR_PATTERN`]
/// found: the whole match, red, green, blue and alpha.
pub fn color_from_groups(groups: &Option<Vec<Option<String>>>) -> (r: Result<HexColor, ParseError>)
    ensures
        r == hex_color_of(groups_view(*groups)),
{
    match groups {
        None => Err(ParseError::InvalidHexColor),
        Some(g) => {
            if g.len() != 5 || g[1].is_none() || g[2].is_none() || g[3].is_none() {
                return Err(ParseError::InvalidHexColor);
            }
            let alpha: Option<u32> = match read_channel(&g[4]) {
                Ok(alpha) => alpha,
                Err(e) => {
                    return Err(e);
                },
            };
            let red: Option<u32> = match read_channel(&g[1]) {
                Ok(red) => red,
                Err(e) => {
                    return Err(e);
                },
            };
            let green: Option<u32> = match read_channel(&g[2]) {
                Ok(green) => green,
                Err(e) => {
                    return Err(e);
                },
            };
            let blue: Option<u32> = match read_channel(&g[3]) {
                Ok(blue) => blue,
                Err(e) => {
                    return Err(e);
                },
            };
            match (red, green, blue) {
                (Some(r), Some(g), Some(b)) => Ok(HexColor { r, g, b, alpha }),
                _ => Err(ParseError::InvalidHexColor),
            }
        },
    }
}

/// Parses a hex string
pub fn parse_color(hex: &str) -> (r: Result<HexColor, ParseError>)
    ensures
        r == parse_color_spec(hex@),
{
    match captures(HEX_COLOR_PATTERN, hex) {
        Err(_) => Err(ParseError::Regex),
        Ok(groups) => color_from_groups(&groups),
    }
}

} // verus!

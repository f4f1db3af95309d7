//! Colours as a configuration writes them: by their channels, or as a text
//! such as `rgb(1, 2, 3)`, `hex(#112233)` or `transparent()`.

use vstd::prelude::*;
use std::str::FromStr;
use crate::color::Color;
use crate::hex_parser::{parse_color, parse_color_spec, HexColor, ParseError};
use crate::pattern::{captures, groups_view, regex_captures, regex_compiles};
use crate::text::{lowercase, lowercase_of, parse_decimal, parse_decimal_spec, same_text};

verus! {

/// A colour in a configuration.
#[derive(Debug, PartialEq, Eq)]
pub enum ColorConfig {
    Rgb { r: u32, g: u32, b: u32 },
    Rgba { r: u32, g: u32, b: u32, alpha: u32 },
    Hex(String),
    Transparent,
    /// Represents that the color should propogate to the next higher
    /// scopes's default color. This type does not exist past the config
    /// stage, and is thus invalid to convert into a `Color`.
    Default,
}

impl Clone for ColorConfig {
    fn clone(&self) -> (r: ColorConfig)
        ensures
            r == *self,
    {
        match self {
            ColorConfig::Rgb { r, g, b } => ColorConfig::Rgb { r: *r, g: *g, b: *b },
            ColorConfig::Rgba { r, g, b, alpha } => ColorConfig::Rgba {
                r: *r,
                g: *g,
                b: *b,
                alpha: *alpha,
            },
            ColorConfig::Hex(hex) => ColorConfig::Hex(hex.clone()),
            ColorConfig::Transparent => ColorConfig::Transparent,
            ColorConfig::Default => ColorConfig::Default,
        }
    }
}

impl Default for ColorConfig {
    fn default() -> (r: ColorConfig)
        ensures
            r == ColorConfig::Default,
    {
        ColorConfig::Default
    }
}

/// The colour that a hexadecimal colour stands for.
pub open spec fn color_of_hex(hex: HexColor) -> Color {
    match hex.alpha {
        Some(alpha) => Color::Rgba { r: hex.r, g: hex.g, b: hex.b, alpha },
        None => Color::Rgb { r: hex.r, g: hex.g, b: hex.b },
    }
}

impl ColorConfig {
    /// The colour that is configured, or `None` where the default of the
    /// next higher scope applies; for a colour written in hexadecimal that
    /// is none, the reason.
    pub open spec fn color_result(&self) -> Result<Option<Color>, ParseError> {
        match *self {
            ColorConfig::Rgb { r, g, b } => Ok(Some(Color::Rgb { r, g, b })),
            ColorConfig::Rgba { r, g, b, alpha } => Ok(Some(Color::Rgba { r, g, b, alpha })),
            ColorConfig::Hex(hex) => match parse_color_spec(hex@) {
                Ok(color) => Ok(Some(color_of_hex(color))),
                Err(e) => Err(e),
            },
            ColorConfig::Transparent => Ok(Some(Color::Transparent)),
            ColorConfig::Default => Ok(None),
        }
    }

    /// The configured colour can be told: it is not written in hexadecimal,
    /// or what is written is a hexadecimal colour.
    pub open spec fn has_color(&self) -> bool {
        self.color_result() is Ok
    }

    /// The colour that is configured, where it can be told.
    pub open spec fn color_option(&self) -> Option<Color> {
        match self.color_result() {
            Ok(color) => color,
            Err(_) => None,
        }
    }

    /// Transforms this `ColorConfig` into an `Option` of `Color`. Note that
    /// this method exists as not all `ColorConfig` variants exist within
    /// `Color`.
    pub fn into_color_option(self) -> (r: Option<Color>)
        requires
            self.has_color(),
        ensures
            r == self.color_option(),
    {
        match self {
            ColorConfig::Rgb { r, g, b } => Some(Color::Rgb { r, g, b }),
            ColorConfig::Rgba { r, g, b, alpha } => Some(Color::Rgba { r, g, b, alpha }),
            ColorConfig::Hex(hex) => match parse_color(hex.as_str()) {
                Ok(color) => Some(
                    match color.alpha {
                        Some(alpha) => Color::Rgba { r: color.r, g: color.g, b: color.b, alpha },
                        None => Color::Rgb { r: color.r, g: color.g, b: color.b },
                    },
                ),
                Err(_) => None,
            },
            ColorConfig::Transparent => Some(Color::Transparent),
            ColorConfig::Default => None,
        }
    }

    /// As [`ColorConfig::into_color_option`], for any configured colour:
    /// where what is written in hexadecimal is no colour, the reason comes
    /// back instead.
    pub fn try_into_color_option(self) -> (r: Result<Option<Color>, ParseError>)
        ensures
            r == self.color_result(),
    {
        match &self {
            ColorConfig::Hex(hex) => match parse_color(hex.as_str()) {
                Ok(_) => {},
                Err(e) => {
                    return Err(e);
                },
            },
            _ => {},
        }
        Ok(self.into_color_option())
    }
}

/// Why a text is no colour.
#[derive(Clone, Debug, PartialEq, Eq)]
pub enum ColorParseError {
    /// could not compile regex
    CouldNotCompileRegex,
    /// specified color in invalid format
    InvalidColorFunctionSyntax(String),
    /// invalid color function
    InvalidFunction(String),
    /// error parsing color
    ParseError(ParseError),
}

/// A [`ColorParseError`] with its texts as sequences of characters.
pub enum ColorFailure {
    CouldNotCompileRegex,
    InvalidColorFunctionSyntax(Seq<char>),
    InvalidFunction(Seq<char>),
    ParseError(ParseError),
}

impl View for ColorParseError {
    type V = ColorFailure;

    open spec fn view(&self) -> ColorFailure {
        match *self {
            ColorParseError::CouldNotCompileRegex => ColorFailure::CouldNotCompileRegex,
            ColorParseError::InvalidColorFunctionSyntax(text) => {
                ColorFailure::InvalidColorFunctionSyntax(text@)
            },
            ColorParseError::InvalidFunction(name) => ColorFailure::InvalidFunction(name@),
            ColorParseError::ParseError(e) => ColorFailure::ParseError(e),
        }
    }
}

/// The pattern of a colour function: group 1 is the name of the function,
/// group 2 what stands between its parentheses.
pub const COLOR_FUNCTION_PATTERN: &'static str = "(?<function>.+)\\((?<color>.*)\\)";

/// The pattern of three or four channels in decimal. Its groups 1 to 3 are
/// red, green and blue, group 5 is alpha.
pub const INLINE_RGBA_PATTERN: &'static str =
    "^(?<r>[0-9]{1,3}),?\\s?(?<g>[0-9]{1,3}),?\\s?(?<b>[0-9]{1,3})(,?\\s?(?<alpha>[0-9]{1,3}))?$";

/// The notations that a colour function can stand for.
#[derive(Clone, Copy, Debug, PartialEq, Eq, Structural)]
pub enum ColorFunction {
    /// `rgb` or `rgba`: channels in decimal.
    Rgb,
    /// `hex`: a hexadecimal colour.
    Hex,
    /// `transparent`.
    Transparent,
    /// Any other name.
    Unknown,
}

/// The notation that the name of a colour function, in lower case, stands
/// for.
pub open spec fn color_function_of(name: Seq<char>) -> ColorFunction {
    if name == "rgb"@ || name == "rgba"@ {
        ColorFunction::Rgb
    } else if name == "hex"@ {
        ColorFunction::Hex
    } else if name == "transparent"@ {
        ColorFunction::Transparent
    } else {
        ColorFunction::Unknown
    }
}

/// The notation that the name of a colour function, in lower case, stands
/// for.
pub fn color_function(name: &str) -> (r: ColorFunction)
    ensures
        r == color_function_of(name@),
{
    if same_text(name, "rgb") || same_text(name, "rgba") {
        ColorFunction::Rgb
    } else if same_text(name, "hex") {
        ColorFunction::Hex
    } else if same_text(name, "transparent") {
        ColorFunction::Transparent
    } else {
        ColorFunction::Unknown
    }
}

/// The colour that a hexadecimal colour stands for in a configuration.
pub open spec fn config_of_hex(hex: HexColor) -> ColorConfig {
    match hex.alpha {
        Some(alpha) => ColorConfig::Rgba { r: hex.r, g: hex.g, b: hex.b, alpha },
        None => ColorConfig::Rgb { r: hex.r, g: hex.g, b: hex.b },
    }
}

/// The colour that the capture groups of [`INLINE_RGBA_PATTERN`] stand for.
///
/// Without a match there is no colour, nor with groups other than the six
/// of the pattern of which red, green and blue took part. Of several
/// channels that are no number the first of red, green, blue and alpha is
/// the one that fails.
pub open spec fn inline_rgba_of(groups: Option<Seq<Option<Seq<char>>>>) -> Result<
    ColorConfig,
    ParseError,
> {
    match groups {
        None => Err(ParseError::InvalidInlineRgb),
        Some(g) => if g.len() != 6 || g[1] is None || g[2] is None || g[3] is None {
            Err(ParseError::InvalidInlineRgb)
        } else {
            match (
                parse_decimal_spec(g[1]->0),
                parse_decimal_spec(g[2]->0),
                parse_decimal_spec(g[3]->0),
            ) {
                (Some(r), Some(g_), Some(b)) => match g[5] {
                    None => Ok(ColorConfig::Rgb { r, g: g_, b }),
                    Some(text) => match parse_decimal_spec(text) {
                        Some(alpha) => Ok(ColorConfig::Rgba { r, g: g_, b, alpha }),
                        None => Err(ParseError::InvalidNumber),
                    },
                },
                _ => Err(ParseError::InvalidNumber),
            }
        },
    }
}

/// What [`parse_inline_rgba`] makes of `color`.
pub open spec fn parse_inline_rgba_spec(color: Seq<char>) -> Result<ColorConfig, ParseError> {
    if regex_compiles(INLINE_RGBA_PATTERN@) {
        inline_rgba_of(regex_captures(INLINE_RGBA_PATTERN@, color))
    } else {
        Err(ParseError::Regex)
    }
}

/// Builds the colour from the capture groups that [`INLINE_RGBA_PATTERN`]
/// found.
pub fn inline_rgba_from_groups(groups: &Option<Vec<Option<String>>>) -> (r: Result<
    ColorConfig,
    ParseError,
>)
    ensures
        r == inline_rgba_of(groups_view(*groups)),
{
    match groups {
        None => Err(ParseError::InvalidInlineRgb),
        Some(g) => {
            if g.len() != 6 {
                return Err(ParseError::InvalidInlineRgb);
            }
            match (&g[1], &g[2], &g[3]) {
                (Some(red), Some(green), Some(blue)) => {
                    match (
                        parse_decimal(red.as_str()),
                        parse_decimal(green.as_str()),
                        parse_decimal(blue.as_str()),
                    ) {
                        (Some(r), Some(g_), Some(b)) => match &g[5] {
                            None => Ok(ColorConfig::Rgb { r, g: g_, b }),
                            Some(text) => match parse_decimal(text.as_str()) {
                                Some(alpha) => Ok(ColorConfig::Rgba { r, g: g_, b, alpha }),
                                None => Err(ParseError::InvalidNumber),
                            },
                        },
                        _ => Err(ParseError::InvalidNumber),
                    }
                },
                _ => Err(ParseError::InvalidInlineRgb),
            }
        },
    }
}

/// Parses an inline rgb color.
///
/// Valid colors:
/// - 1,1,1
/// - 11, 22, 33
/// - 12 545 389
pub fn parse_inline_rgba(color: &str) -> (r: Result<ColorConfig, ParseError>)
    ensures
        r == parse_inline_rgba_spec(color@),
{
    match captures(INLINE_RGBA_PATTERN, color) {
        Err(_) => Err(ParseError::Regex),
        Ok(groups) => inline_rgba_from_groups(&groups),
    }
}

/// What the call of a colour function means, given the notation its name
/// stands for, what the two notations make of its argument and, for an
/// unknown function, its name.
pub open spec fn color_call_of(
    function: ColorFunction,
    name: Seq<char>,
    inline: Result<ColorConfig, ParseError>,
    hex: Result<HexColor, ParseError>,
) -> Result<ColorConfig, ColorFailure> {
    match function {
        ColorFunction::Rgb => match inline {
            Ok(color) => Ok(color),
            Err(e) => Err(ColorFailure::ParseError(e)),
        },
        ColorFunction::Hex => match hex {
            Ok(color) => Ok(config_of_hex(color)),
            Err(e) => Err(ColorFailure::ParseError(e)),
        },
        ColorFunction::Transparent => Ok(ColorConfig::Transparent),
        ColorFunction::Unknown => Err(ColorFailure::InvalidFunction(name)),
    }
}

/// What [`parse_color_config`] makes of `s`.
pub open spec fn parse_color_config_spec(s: Seq<char>) -> Result<ColorConfig, ColorFailure> {
    if !regex_compiles(COLOR_FUNCTION_PATTERN@) {
        Err(ColorFailure::CouldNotCompileRegex)
    } else {
        match regex_captures(COLOR_FUNCTION_PATTERN@, s) {
            Some(g) if g.len() == 3 && g[1] is Some && g[2] is Some => color_call_of(
                color_function_of(lowercase_of(g[1]->0)),
                g[1]->0,
                parse_inline_rgba_spec(g[2]->0),
                parse_color_spec(g[2]->0),
            ),
            _ => Err(ColorFailure::InvalidColorFunctionSyntax(s)),
        }
    }
}

/// The parse result with the texts of an error as sequences of characters.
pub open spec fn outcome_view(r: Result<ColorConfig, ColorParseError>) -> Result<
    ColorConfig,
    ColorFailure,
> {
    match r {
        Ok(color) => Ok(color),
        Err(e) => Err(e@),
    }
}

/// Reads a colour written as the call of a colour function: `rgb(..)` or
/// `rgba(..)` with channels in decimal, `hex(..)` with a hexadecimal colour,
/// or `transparent()`. The name of the function may be in either case.
pub fn parse_color_config(s: &str) -> (r: Result<ColorConfig, ColorParseError>)
    ensures
        outcome_view(r) == parse_color_config_spec(s@),
{
    let groups = match captures(COLOR_FUNCTION_PATTERN, s) {
        Err(_) => {
            return Err(ColorParseError::CouldNotCompileRegex);
        },
        Ok(groups) => groups,
    };
    match &groups {
        Some(g) => {
            if g.len() == 3 {
                match (&g[1], &g[2]) {
                    (Some(function), Some(color)) => {
                        let name: String = lowercase(function.as_str());
                        return match color_function(name.as_str()) {
                            ColorFunction::Rgb => match parse_inline_rgba(color.as_str()) {
                                Ok(color) => Ok(color),
                                Err(e) => Err(ColorParseError::ParseError(e)),
                            },
                            ColorFunction::Hex => match parse_color(color.as_str()) {
                                Ok(hex) => Ok(
                                    match hex.alpha {
                                        Some(alpha) => ColorConfig::Rgba {
                                            r: hex.r,
                                            g: hex.g,
                                            b: hex.b,
                                            alpha,
                                        },
                                        None => ColorConfig::Rgb { r: hex.r, g: hex.g, b: hex.b },
                                    },
                                ),
                                Err(e) => Err(ColorParseError::ParseError(e)),
                            },
                            ColorFunction::Transparent => Ok(ColorConfig::Transparent),
                            ColorFunction::Unknown => Err(
                                ColorParseError::InvalidFunction(function.clone()),
                            ),
                        };
                    },
                    _ => {},
                }
            }
        },
        None => {},
    }
    Err(ColorParseError::InvalidColorFunctionSyntax(s.to_owned()))
}

impl FromStr for ColorConfig {
    type Err = ColorParseError;

    fn from_str(s: &str) -> (r: Result<Self, Self::Err>)
        ensures
            outcome_view(r) == parse_color_config_spec(s@),
    {
        parse_color_config(s)
    }
}

} // verus!

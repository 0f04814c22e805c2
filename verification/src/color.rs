//! Color values: the 24-bit RGB triple and the 8-bit palette index.

use vstd::prelude::*;
use vstd::std_specs::convert::{FromSpecImpl, TryFromSpecImpl};
use vstd::string::StrSliceExecFns;

verus! {

/// An 8-bit palette index, the kind of color that `38;5;N` selects.
pub struct Simple(u8);

/// A 24-bit color: three components, each between 0 and 255.
#[derive(Clone, Copy, Debug, PartialEq, Eq, Structural)]
pub struct Rgb {
    pub red: u8,
    pub green: u8,
    pub blue: u8,
}

/// Why a string is not a hexadecimal color.
#[derive(Clone, Copy, Debug, PartialEq, Eq, Structural)]
pub enum HexError {
    /// Fewer than six characters follow the optional `#`.
    TooShort,
    /// One of the six characters is not a hexadecimal digit.
    InvalidDigit,
}

/// The value of the hexadecimal digit `c`, in either case.
pub open spec fn hex_digit(c: char) -> Option<u8> {
    if '0' <= c <= '9' {
        Some((c as u8 - '0' as u8) as u8)
    } else if 'a' <= c <= 'f' {
        Some((c as u8 - 'a' as u8 + 10) as u8)
    } else if 'A' <= c <= 'F' {
        Some((c as u8 - 'A' as u8 + 10) as u8)
    } else {
        None
    }
}

/// The value of the two-digit hexadecimal numeral `high` `low`.
pub open spec fn hex_pair(high: char, low: char) -> Option<u8> {
    match (hex_digit(high), hex_digit(low)) {
        (Some(h), Some(l)) => Some((16 * h + l) as u8),
        _ => None,
    }
}

/// `color` without the one `#` it may start with.
pub open spec fn hex_digits(color: Seq<char>) -> Seq<char> {
    if color.len() > 0 && color[0] == '#' {
        color.skip(1)
    } else {
        color
    }
}

/// The color that `color` writes as `#RRGGBB` or `RRGGBB`.
///
/// The first six characters after the optional `#` are read as three
/// two-digit hexadecimal numerals; whatever follows them is not looked at.
pub open spec fn parse_hex(color: Seq<char>) -> Result<Rgb, HexError> {
    let digits = hex_digits(color);
    if digits.len() < 6 {
        Err(HexError::TooShort)
    } else {
        match (
            hex_pair(digits[0], digits[1]),
            hex_pair(digits[2], digits[3]),
            hex_pair(digits[4], digits[5]),
        ) {
            (Some(red), Some(green), Some(blue)) => Ok(Rgb { red, green, blue }),
            _ => Err(HexError::InvalidDigit),
        }
    }
}

/// Reads one hexadecimal digit.
fn read_digit(c: char) -> (value: Option<u8>)
    ensures
        value == hex_digit(c),
{
    if '0' <= c && c <= '9' {
        Some(c as u8 - '0' as u8)
    } else if 'a' <= c && c <= 'f' {
        Some(c as u8 - 'a' as u8 + 10)
    } else if 'A' <= c && c <= 'F' {
        Some(c as u8 - 'A' as u8 + 10)
    } else {
        None
    }
}

/// Reads the two-digit hexadecimal numeral `high` `low`.
fn read_pair(high: char, low: char) -> (value: Option<u8>)
    ensures
        value == hex_pair(high, low),
{
    match (read_digit(high), read_digit(low)) {
        (Some(high), Some(low)) => Some(16 * high + low),
        _ => None,
    }
}

/// One byte from `rand::random::<u8>()`, which draws it from the
/// thread-local generator. Every byte can come back and two calls need not
/// agree, so nothing is claimed of the result. The call takes no input; it
/// fails only where the system gives the generator no seed.
#[verifier::external_body]
fn random_byte() -> u8 {
    rand::random::<u8>()
}

impl Simple {
    /// A random palette index.
    pub fn random() -> u8 {
        random_byte()
    }
}

impl Rgb {
    /// The color with the given components.
    #[must_use]
    pub fn new(red: u8, green: u8, blue: u8) -> (rgb: Self)
        ensures
            rgb == (Rgb { red, green, blue }),
    {
        Self { red, green, blue }
    }

    /// Decodes a color written as `#RRGGBB`; the `#` may be left out, and
    /// the digits may be of either case.
    ///
    /// A string that is too short, or whose digits are not hexadecimal, is
    /// reported as an error: no color is ever put in its place.
    pub fn from_hex(color: &str) -> (decoded: Result<Rgb, HexError>)
        ensures
            decoded == parse_hex(color@),
    {
        let len = color.unicode_len();
        let start: usize = if len > 0 && color.get_char(0) == '#' {
            1
        } else {
            0
        };
        if len - start < 6 {
            return Err(HexError::TooShort);
        }
        let red = read_pair(color.get_char(start), color.get_char(start + 1));
        let green = read_pair(color.get_char(start + 2), color.get_char(start + 3));
        let blue = read_pair(color.get_char(start + 4), color.get_char(start + 5));
        match (red, green, blue) {
            (Some(red), Some(green), Some(blue)) => Ok(Rgb::new(red, green, blue)),
            _ => Err(HexError::InvalidDigit),
        }
    }

    /// A color with three random components, each drawn on its own.
    pub fn random() -> Rgb {
        let red = random_byte();
        let green = random_byte();
        let blue = random_byte();
        Rgb::new(red, green, blue)
    }
}

impl From<&[u8; 3]> for Rgb {
    /// The color whose components are the three bytes, in order.
    fn from(color: &[u8; 3]) -> (rgb: Self) {
        Self::new(color[0], color[1], color[2])
    }
}

impl FromSpecImpl<&[u8; 3]> for Rgb {
    open spec fn obeys_from_spec() -> bool {
        true
    }

    open spec fn from_spec(color: &[u8; 3]) -> Self {
        Rgb { red: color[0], green: color[1], blue: color[2] }
    }
}

impl TryFrom<&str> for Rgb {
    type Error = HexError;

    /// Decodes a color written as `#RRGGBB`, as [`Rgb::from_hex`] does.
    fn try_from(color: &str) -> (decoded: Result<Self, HexError>) {
        Rgb::from_hex(color)
    }
}

impl TryFromSpecImpl<&str> for Rgb {
    open spec fn obeys_try_from_spec() -> bool {
        true
    }

    open spec fn try_from_spec(color: &str) -> Result<Self, HexError> {
        parse_hex(color@)
    }
}

} // verus!

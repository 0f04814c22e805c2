//! The color behind the text.

use crate::color::{parse_hex, HexError, Rgb};
use vstd::prelude::*;
use vstd::std_specs::convert::{FromSpecImpl, TryFromSpecImpl};

verus! {

/// The color applied behind the glyphs of a styled string.
#[derive(Clone, Copy, Debug, PartialEq, Eq, Structural)]
pub enum BackgroundColor {
    /// No color was asked for.
    Empty,
    /// A named base color or an 8-bit palette index.
    Simple(u8),
    /// A 24-bit color.
    Rgb(Rgb),
}

impl From<u8> for BackgroundColor {
    fn from(color: u8) -> (spec: Self) {
        BackgroundColor::Simple(color)
    }
}

impl FromSpecImpl<u8> for BackgroundColor {
    open spec fn obeys_from_spec() -> bool {
        true
    }

    open spec fn from_spec(color: u8) -> Self {
        BackgroundColor::Simple(color)
    }
}

impl From<Rgb> for BackgroundColor {
    fn from(color: Rgb) -> (spec: Self) {
        BackgroundColor::Rgb(color)
    }
}

impl FromSpecImpl<Rgb> for BackgroundColor {
    open spec fn obeys_from_spec() -> bool {
        true
    }

    open spec fn from_spec(color: Rgb) -> Self {
        BackgroundColor::Rgb(color)
    }
}

impl From<&[u8; 3]> for BackgroundColor {
    fn from(color: &[u8; 3]) -> (spec: Self) {
        BackgroundColor::Rgb(Rgb::new(color[0], color[1], color[2]))
    }
}

impl FromSpecImpl<&[u8; 3]> for BackgroundColor {
    open spec fn obeys_from_spec() -> bool {
        true
    }

    open spec fn from_spec(color: &[u8; 3]) -> Self {
        BackgroundColor::Rgb(Rgb { red: color[0], green: color[1], blue: color[2] })
    }
}

impl TryFrom<&str> for BackgroundColor {
    type Error = HexError;

    /// Decodes a color written as `#RRGGBB`, as [`Rgb::from_hex`] does.
    fn try_from(color: &str) -> (decoded: Result<Self, HexError>) {
        match Rgb::from_hex(color) {
            Ok(rgb) => Ok(BackgroundColor::Rgb(rgb)),
            Err(error) => Err(error),
        }
    }
}

impl TryFromSpecImpl<&str> for BackgroundColor {
    open spec fn obeys_try_from_spec() -> bool {
        true
    }

    open spec fn try_from_spec(color: &str) -> Result<Self, HexError> {
        match parse_hex(color@) {
            Ok(rgb) => Ok(BackgroundColor::Rgb(rgb)),
            Err(error) => Err(error),
        }
    }
}

} // verus!

//! The numeric codes of the SGR parameters this crate emits.

use vstd::prelude::*;

verus! {

/// Selector that introduces an extended or true-color foreground.
pub const FOREGROUND: u8 = 38;

/// Selector that introduces an extended or true-color background.
pub const BACKGROUND: u8 = 48;

/// Depth marker for an 8-bit palette index.
pub const LOW_DEPTH: u8 = 5;

/// Depth marker for a 24-bit RGB triple.
pub const HIGH_DEPTH: u8 = 2;

pub const BLACK: u8 = 30;

pub const RED: u8 = 31;

pub const GREEN: u8 = 32;

pub const YELLOW: u8 = 33;

pub const BLUE: u8 = 34;

pub const MAGENTA: u8 = 35;

pub const CYAN: u8 = 36;

pub const WHITE: u8 = 37;

pub const DEFAULT: u8 = 39;

pub const BOLD: u8 = 1;

pub const DIM: u8 = 2;

pub const ITALIC: u8 = 3;

pub const UNDERLINE: u8 = 4;

pub const BLINK: u8 = 5;

pub const INVERT: u8 = 7;

pub const HIDDEN: u8 = 8;

pub const STRIKE: u8 = 9;

pub const RESET: u8 = 0;

/// How far a named color's background code lies above its foreground code.
pub const BACKGROUND_OFFSET: u8 = 10;

/// Whether `code` is one of the eight named base colors.
pub open spec fn is_named(code: u8) -> bool {
    code == BLACK || code == RED || code == GREEN || code == YELLOW || code == BLUE || code
        == MAGENTA || code == CYAN || code == WHITE
}

/// Tells whether `code` is one of the eight named base colors.
pub fn is_named_color(code: u8) -> (named: bool)
    ensures
        named == is_named(code),
{
    code == BLACK || code == RED || code == GREEN || code == YELLOW || code == BLUE || code
        == MAGENTA || code == CYAN || code == WHITE
}

} // verus!

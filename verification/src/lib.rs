//! Terminal text styling: decorate text with colors and display modes, then
//! render it as an ANSI SGR escape sequence wrapped around the text.
//!
//! A [`StyledString`] collects modes and at most one color per slot; its
//! `to_string` writes `ESC [ c1;c2;...;cn m`, the text, and `ESC [ 0 m`.
//! The [`Styled`] trait starts such a value from a `str` in one call.

pub mod background;
pub mod color;
pub mod constants;
pub mod foreground;
pub mod laws;
pub mod sequence;
pub mod styled;
pub mod styled_string;

pub use crate::background::BackgroundColor;
pub use crate::color::{HexError, Rgb, Simple};
pub use crate::constants::{
    BLACK, BLINK, BLUE, BOLD, CYAN, DEFAULT, DIM, GREEN, HIDDEN, INVERT, ITALIC, MAGENTA, RED,
    RESET, STRIKE, UNDERLINE, WHITE, YELLOW,
};
pub use crate::foreground::ForegroundColor;
pub use crate::styled::Styled;
pub use crate::styled_string::{Style, StyledString};

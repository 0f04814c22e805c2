//! Styling called directly on text.

use crate::background::BackgroundColor;
use crate::constants::{
    BLACK, BLINK, BLUE, BOLD, CYAN, DIM, GREEN, HIDDEN, INVERT, ITALIC, MAGENTA, RED, STRIKE,
    UNDERLINE, WHITE, YELLOW,
};
use crate::foreground::ForegroundColor;
use crate::styled_string::{Style, StyledString};
use vstd::prelude::*;
use vstd::std_specs::convert::IntoSpec;

verus! {

/// Text that can be styled in one call: every method wraps the text in a
/// fresh [`StyledString`] and applies one attribute to it.
///
/// It is implemented for `str`, so the methods can be called on a string
/// literal, a `String`, or anything else that dereferences to `str`.
pub trait Styled {
    /// The text that the methods wrap.
    spec fn text(&self) -> Seq<char>;

    /// Wraps the text without any style.
    fn to_styled_string(&self) -> (styled: StyledString)
        ensures
            styled@ == Style::plain(self.text()),
    ;

    /// Sets the text color.
    fn foreground<C: Into<ForegroundColor>>(&self, color: C) -> (styled: StyledString)
        ensures
            styled@.text == self.text(),
            styled@.modes == Seq::<u8>::empty(),
            styled@.background == BackgroundColor::Empty,
            call_ensures(C::into, (color,), styled@.foreground),
            C::obeys_into_spec() ==> styled@ == Style::plain(self.text()).with_foreground(
                color.into_spec(),
            ),
    ;

    /// Sets the background color.
    fn background<C: Into<BackgroundColor>>(&self, color: C) -> (styled: StyledString)
        ensures
            styled@.text == self.text(),
            styled@.modes == Seq::<u8>::empty(),
            styled@.foreground == ForegroundColor::Empty,
            call_ensures(C::into, (color,), styled@.background),
            C::obeys_into_spec() ==> styled@ == Style::plain(self.text()).with_background(
                color.into_spec(),
            ),
    ;

    /// Applies the bold attribute.
    fn bold(&self) -> (styled: StyledString)
        ensures
            styled@ == Style::plain(self.text()).with_mode(BOLD),
    ;

    /// Applies the dim attribute.
    fn dim(&self) -> (styled: StyledString)
        ensures
            styled@ == Style::plain(self.text()).with_mode(DIM),
    ;

    /// Applies the italic attribute.
    fn italic(&self) -> (styled: StyledString)
        ensures
            styled@ == Style::plain(self.text()).with_mode(ITALIC),
    ;

    /// Applies the underline attribute.
    fn underline(&self) -> (styled: StyledString)
        ensures
            styled@ == Style::plain(self.text()).with_mode(UNDERLINE),
    ;

    /// Applies the blink attribute.
    fn blink(&self) -> (styled: StyledString)
        ensures
            styled@ == Style::plain(self.text()).with_mode(BLINK),
    ;

    /// Swaps the foreground and background colors.
    fn invert(&self) -> (styled: StyledString)
        ensures
            styled@ == Style::plain(self.text()).with_mode(INVERT),
    ;

    /// Applies the hidden attribute.
    fn hidden(&self) -> (styled: StyledString)
        ensures
            styled@ == Style::plain(self.text()).with_mode(HIDDEN),
    ;

    /// Applies the strike-through attribute.
    fn strike(&self) -> (styled: StyledString)
        ensures
            styled@ == Style::plain(self.text()).with_mode(STRIKE),
    ;

    /// Sets the text color to black.
    fn black(&self) -> (styled: StyledString)
        ensures
            styled@ == Style::plain(self.text()).with_foreground(
                ForegroundColor::Simple(BLACK),
            ),
    ;

    /// Sets the text color to red.
    fn red(&self) -> (styled: StyledString)
        ensures
            styled@ == Style::plain(self.text()).with_foreground(
                ForegroundColor::Simple(RED),
            ),
    ;

    /// Sets the text color to green.
    fn green(&self) -> (styled: StyledString)
        ensures
            styled@ == Style::plain(self.text()).with_foreground(
                ForegroundColor::Simple(GREEN),
            ),
    ;

    /// Sets the text color to yellow.
    fn yellow(&self) -> (styled: StyledString)
        ensures
            styled@ == Style::plain(self.text()).with_foreground(
                ForegroundColor::Simple(YELLOW),
            ),
    ;

    /// Sets the text color to blue.
    fn blue(&self) -> (styled: StyledString)
        ensures
            styled@ == Style::plain(self.text()).with_foreground(
                ForegroundColor::Simple(BLUE),
            ),
    ;

    /// Sets the text color to magenta.
    fn magenta(&self) -> (styled: StyledString)
        ensures
            styled@ == Style::plain(self.text()).with_foreground(
                ForegroundColor::Simple(MAGENTA),
            ),
    ;

    /// Sets the text color to cyan.
    fn cyan(&self) -> (styled: StyledString)
        ensures
            styled@ == Style::plain(self.text()).with_foreground(
                ForegroundColor::Simple(CYAN),
            ),
    ;

    /// Sets the text color to white.
    fn white(&self) -> (styled: StyledString)
        ensures
            styled@ == Style::plain(self.text()).with_foreground(
                ForegroundColor::Simple(WHITE),
            ),
    ;
}

impl Styled for str {
    open spec fn text(&self) -> Seq<char> {
        self@
    }

    fn to_styled_string(&self) -> (styled: StyledString) {
        StyledString::new(self)
    }

    fn foreground<C: Into<ForegroundColor>>(&self, color: C) -> (styled: StyledString) {
        StyledString::new(self).foreground(color)
    }

    fn background<C: Into<BackgroundColor>>(&self, color: C) -> (styled: StyledString) {
        StyledString::new(self).background(color)
    }

    fn bold(&self) -> (styled: StyledString) {
        StyledString::new(self).bold()
    }

    fn dim(&self) -> (styled: StyledString) {
        StyledString::new(self).dim()
    }

    fn italic(&self) -> (styled: StyledString) {
        StyledString::new(self).italic()
    }

    fn underline(&self) -> (styled: StyledString) {
        StyledString::new(self).underline()
    }

    fn blink(&self) -> (styled: StyledString) {
        StyledString::new(self).blink()
    }

    fn invert(&self) -> (styled: StyledString) {
        StyledString::new(self).invert()
    }

    fn hidden(&self) -> (styled: StyledString) {
        StyledString::new(self).hidden()
    }

    fn strike(&self) -> (styled: StyledString) {
        StyledString::new(self).strike()
    }

    fn black(&self) -> (styled: StyledString) {
        self.foreground(BLACK)
    }

    fn red(&self) -> (styled: StyledString) {
        self.foreground(RED)
    }

    fn green(&self) -> (styled: StyledString) {
        self.foreground(GREEN)
    }

    fn yellow(&self) -> (styled: StyledString) {
        self.foreground(YELLOW)
    }

    fn blue(&self) -> (styled: StyledString) {
        self.foreground(BLUE)
    }

    fn magenta(&self) -> (styled: StyledString) {
        self.foreground(MAGENTA)
    }

    fn cyan(&self) -> (styled: StyledString) {
        self.foreground(CYAN)
    }

    fn white(&self) -> (styled: StyledString) {
        self.foreground(WHITE)
    }
}

} // verus!

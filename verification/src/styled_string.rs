//! Text together with the style it will be rendered in.

use crate::background::BackgroundColor;
use crate::constants::{
    is_named_color, BACKGROUND, BACKGROUND_OFFSET, BLINK, BOLD, DIM, FOREGROUND, HIDDEN,
    HIGH_DEPTH, INVERT, ITALIC, LOW_DEPTH, STRIKE, UNDERLINE,
};
use crate::foreground::ForegroundColor;
use crate::sequence::{background_codes, escape, escaped, foreground_codes, style_codes};
use vstd::prelude::*;
use vstd::std_specs::convert::{FromSpecImpl, IntoSpec};
use vstd::string::StringExecFns;

verus! {

/// What a [`StyledString`] holds, as mathematical values.
pub struct Style {
    /// The text that will be shown.
    pub text: Seq<char>,
    /// The mode codes, in the order they were applied; repeats are kept.
    pub modes: Seq<u8>,
    /// The one foreground color, the last that was set.
    pub foreground: ForegroundColor,
    /// The one background color, the last that was set.
    pub background: BackgroundColor,
}

impl Style {
    /// Unstyled `text`: no mode, no color.
    pub open spec fn plain(text: Seq<char>) -> Style {
        Style {
            text,
            modes: Seq::empty(),
            foreground: ForegroundColor::Empty,
            background: BackgroundColor::Empty,
        }
    }

    /// This style with `code` applied after the modes it already has.
    pub open spec fn with_mode(self, code: u8) -> Style {
        Style { modes: self.modes.push(code), ..self }
    }

    /// This style with its foreground replaced by `color`.
    pub open spec fn with_foreground(self, color: ForegroundColor) -> Style {
        Style { foreground: color, ..self }
    }

    /// This style with its background replaced by `color`.
    pub open spec fn with_background(self, color: BackgroundColor) -> Style {
        Style { background: color, ..self }
    }

    /// The SGR parameters of this style, in the order they are emitted.
    pub open spec fn codes(self) -> Seq<u8> {
        style_codes(self.modes, self.foreground, self.background)
    }

    /// The escape sequence that shows the text in this style.
    pub open spec fn rendered(self) -> Seq<char> {
        escaped(self.codes(), self.text)
    }
}

/// A string and the escape codes it will be wrapped in when rendered.
#[derive(Debug, PartialEq, Eq)]
#[must_use]
pub struct StyledString {
    text: String,
    modes: Vec<u8>,
    foreground: ForegroundColor,
    background: BackgroundColor,
}

impl View for StyledString {
    type V = Style;

    /// The text, the modes and the two colors as they stand.
    closed spec fn view(&self) -> Style {
        Style {
            text: self.text@,
            modes: self.modes@,
            foreground: self.foreground,
            background: self.background,
        }
    }
}

impl Clone for StyledString {
    /// A copy with the same text and style.
    fn clone(&self) -> (copy: Self)
        ensures
            copy@ == self@,
    {
        Self {
            text: self.text.clone(),
            modes: self.modes.clone(),
            foreground: self.foreground,
            background: self.background,
        }
    }
}

impl From<&str> for StyledString {
    /// Wraps `text` without any style.
    fn from(text: &str) -> (styled: Self)
        ensures
            styled@ == Style::plain(text@),
    {
        Self::new(text)
    }
}

/// The conversion is specified by the `ensures` of `from`, over the view.
/// Two values with one view need not be one value, so no value is named
/// here.
impl FromSpecImpl<&str> for StyledString {
    open spec fn obeys_from_spec() -> bool {
        false
    }

    open spec fn from_spec(text: &str) -> Self {
        arbitrary()
    }
}

impl From<String> for StyledString {
    /// Wraps `text` without any style.
    fn from(text: String) -> (styled: Self)
        ensures
            styled@ == Style::plain(text@),
    {
        Self {
            text,
            modes: Vec::new(),
            foreground: ForegroundColor::Empty,
            background: BackgroundColor::Empty,
        }
    }
}

/// The conversion is specified by the `ensures` of `from`, over the view.
/// Two values with one view need not be one value, so no value is named
/// here.
impl FromSpecImpl<String> for StyledString {
    open spec fn obeys_from_spec() -> bool {
        false
    }

    open spec fn from_spec(text: String) -> Self {
        arbitrary()
    }
}

impl Default for StyledString {
    /// Empty text without any style.
    fn default() -> (styled: Self)
        ensures
            styled@ == Style::plain(Seq::empty()),
    {
        Self {
            text: String::new(),
            modes: Vec::new(),
            foreground: ForegroundColor::Empty,
            background: BackgroundColor::Empty,
        }
    }
}

impl StyledString {
    /// Wraps `text` without any style.
    pub fn new(text: &str) -> (styled: Self)
        ensures
            styled@ == Style::plain(text@),
    {
        Self {
            text: String::from_str(text),
            modes: Vec::new(),
            foreground: ForegroundColor::Empty,
            background: BackgroundColor::Empty,
        }
    }

    /// Sets the text color of the string, replacing any earlier one.
    ///
    /// The new color is whatever `color.into()` returns; for the
    /// conversions of this crate that is the value their `from_spec` names.
    pub fn foreground<C: Into<ForegroundColor>>(self, color: C) -> (styled: Self)
        ensures
            styled@.text == self@.text,
            styled@.modes == self@.modes,
            styled@.background == self@.background,
            call_ensures(C::into, (color,), styled@.foreground),
            C::obeys_into_spec() ==> styled@ == self@.with_foreground(color.into_spec()),
    {
        let mut styled = self;
        styled.foreground = color.into();
        styled
    }

    /// Sets the background color of the string, replacing any earlier one.
    ///
    /// The new color is whatever `color.into()` returns; for the
    /// conversions of this crate that is the value their `from_spec` names.
    pub fn background<C: Into<BackgroundColor>>(self, color: C) -> (styled: Self)
        ensures
            styled@.text == self@.text,
            styled@.modes == self@.modes,
            styled@.foreground == self@.foreground,
            call_ensures(C::into, (color,), styled@.background),
            C::obeys_into_spec() ==> styled@ == self@.with_background(color.into_spec()),
    {
        let mut styled = self;
        styled.background = color.into();
        styled
    }

    /// Appends `code` to the modes of the string.
    fn mode(self, code: u8) -> (styled: Self)
        ensures
            styled@ == self@.with_mode(code),
    {
        let mut styled = self;
        styled.modes.push(code);
        styled
    }

    /// Applies the bold attribute to the string.
    pub fn bold(self) -> (styled: Self)
        ensures
            styled@ == self@.with_mode(BOLD),
    {
        self.mode(BOLD)
    }

    /// Applies the dim attribute to the string.
    pub fn dim(self) -> (styled: Self)
        ensures
            styled@ == self@.with_mode(DIM),
    {
        self.mode(DIM)
    }

    /// Applies the italic attribute to the string.
    pub fn italic(self) -> (styled: Self)
        ensures
            styled@ == self@.with_mode(ITALIC),
    {
        self.mode(ITALIC)
    }

    /// Applies the underline attribute to the string.
    pub fn underline(self) -> (styled: Self)
        ensures
            styled@ == self@.with_mode(UNDERLINE),
    {
        self.mode(UNDERLINE)
    }

    /// Applies the blink attribute to the string.
    pub fn blink(self) -> (styled: Self)
        ensures
            styled@ == self@.with_mode(BLINK),
    {
        self.mode(BLINK)
    }

    /// Swaps the foreground and background colors of the string.
    pub fn invert(self) -> (styled: Self)
        ensures
            styled@ == self@.with_mode(INVERT),
    {
        self.mode(INVERT)
    }

    /// Applies the hidden attribute to the string.
    pub fn hidden(self) -> (styled: Self)
        ensures
            styled@ == self@.with_mode(HIDDEN),
    {
        self.mode(HIDDEN)
    }

    /// Applies the strike-through attribute to the string.
    pub fn strike(self) -> (styled: Self)
        ensures
            styled@ == self@.with_mode(STRIKE),
    {
        self.mode(STRIKE)
    }

    /// The SGR parameters of the string, in the order they are emitted.
    pub fn sequence(&self) -> (codes: Vec<u8>)
        ensures
            codes@ == self@.codes(),
    {
        let mut codes: Vec<u8> = Vec::new();
        let mut i: usize = 0;
        while i < self.modes.len()
            invariant
                i <= self.modes.len(),
                codes@ == self.modes@.take(i as int),
            decreases self.modes.len() - i,
        {
            codes.push(self.modes[i]);
            assert(codes@ =~= self.modes@.take(i + 1));
            i += 1;
        }
        assert(codes@ =~= self.modes@);
        match self.foreground {
            ForegroundColor::Simple(color) => {
                if is_named_color(color) {
                    codes.push(color);
                } else {
                    codes.push(FOREGROUND);
                    codes.push(LOW_DEPTH);
                    codes.push(color);
                }
            },
            ForegroundColor::Rgb(rgb) => {
                codes.push(FOREGROUND);
                codes.push(HIGH_DEPTH);
                codes.push(rgb.red);
                codes.push(rgb.green);
                codes.push(rgb.blue);
            },
            ForegroundColor::Empty => {},
        }
        assert(codes@ =~= self.modes@ + foreground_codes(self.foreground));
        match self.background {
            BackgroundColor::Simple(color) => {
                if is_named_color(color) {
                    codes.push(color + BACKGROUND_OFFSET);
                } else {
                    codes.push(BACKGROUND);
                    codes.push(LOW_DEPTH);
                    codes.push(color);
                }
            },
            BackgroundColor::Rgb(rgb) => {
                codes.push(BACKGROUND);
                codes.push(HIGH_DEPTH);
                codes.push(rgb.red);
                codes.push(rgb.green);
                codes.push(rgb.blue);
            },
            BackgroundColor::Empty => {},
        }
        assert(codes@ =~= self.modes@ + foreground_codes(self.foreground) + background_codes(
            self.background,
        ));
        codes
    }

    /// Renders the text wrapped in the escape sequence of its style.
    pub fn to_string(&self) -> (out: String)
        ensures
            out@ == self@.rendered(),
    {
        let codes = self.sequence();
        escape(&codes, self.text.as_str())
    }
}

} // verus!

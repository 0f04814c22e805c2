//! What holds of every rendering, proved from the definitions.

use crate::background::BackgroundColor;
use crate::color::{hex_digit, hex_digits, parse_hex, Rgb};
use crate::constants::{is_named, BACKGROUND_OFFSET};
use crate::foreground::ForegroundColor;
use crate::sequence::{background_codes, decimal, digit, foreground_codes, framed, joined};
use crate::styled_string::{Style, StyledString};
use vstd::prelude::*;

verus! {

/// The numeral of a byte has one, two or three digits, the highest first.
pub proof fn decimal_of_a_byte(n: u8)
    ensures
        n < 10 ==> decimal(n as nat) == seq![digit(n as nat)],
        10 <= n < 100 ==> decimal(n as nat) == seq![digit((n / 10) as nat), digit((n % 10) as nat)],
        100 <= n ==> decimal(n as nat) == seq![
            digit((n / 100) as nat),
            digit((n / 10 % 10) as nat),
            digit((n % 10) as nat),
        ],
{
    reveal_with_fuel(decimal, 3);
    if n < 10 {
    } else if n < 100 {
        assert(decimal(n as nat) =~= seq![digit((n / 10) as nat), digit((n % 10) as nat)]);
    } else {
        assert(decimal(n as nat) =~= seq![
            digit((n / 100) as nat),
            digit((n / 10 % 10) as nat),
            digit((n % 10) as nat),
        ]);
    }
}

/// Joining two non-empty lists joins each and puts one `;` between them.
pub proof fn joined_concatenation(first: Seq<u8>, second: Seq<u8>)
    requires
        first.len() > 0,
        second.len() > 0,
    ensures
        joined(first + second) == joined(first) + seq![';'] + joined(second),
    decreases second.len(),
{
    let whole = first + second;
    assert(whole.drop_last() =~= first + second.drop_last());
    assert(whole.last() == second.last());
    if second.len() == 1 {
        assert(first + second.drop_last() =~= first);
    } else {
        joined_concatenation(first, second.drop_last());
        assert(joined(whole) =~= joined(first) + seq![';'] + joined(second));
    }
}

/// A named color as the only attribute renders as `ESC [ code m`, the
/// text, and the reset; the code is the two digits `3` and `code - 30`.
pub proof fn named_foreground_renders_its_code(text: Seq<char>, code: u8)
    requires
        is_named(code),
    ensures
        Style::plain(text).with_foreground(ForegroundColor::Simple(code)).rendered() == framed(
            decimal(code as nat),
            text,
        ),
        decimal(code as nat) == seq!['3', digit((code - 30) as nat)],
{
    let style = Style::plain(text).with_foreground(ForegroundColor::Simple(code));
    assert(style.codes() =~= seq![code]);
    reveal_with_fuel(decimal, 2);
    assert(decimal(code as nat) =~= seq!['3', digit((code - 30) as nat)]);
}

/// A named color as the only attribute, set as background, renders as
/// `ESC [ code+10 m`, the text, and the reset; the code is the two digits
/// `4` and `code - 30`.
pub proof fn named_background_renders_its_code_plus_ten(text: Seq<char>, code: u8)
    requires
        is_named(code),
    ensures
        Style::plain(text).with_background(BackgroundColor::Simple(code)).rendered() == framed(
            decimal((code + 10) as nat),
            text,
        ),
        decimal((code + 10) as nat) == seq!['4', digit((code - 30) as nat)],
{
    let style = Style::plain(text).with_background(BackgroundColor::Simple(code));
    assert(style.codes() =~= seq![(code + BACKGROUND_OFFSET) as u8]);
    reveal_with_fuel(decimal, 2);
    assert(decimal((code + 10) as nat) =~= seq!['4', digit((code - 30) as nat)]);
}

/// A mode as the only attribute renders as `ESC [ mode m`, the text, and
/// the reset.
pub proof fn mode_alone_renders_its_code(text: Seq<char>, mode: u8)
    ensures
        Style::plain(text).with_mode(mode).rendered() == framed(decimal(mode as nat), text),
{
    assert(Style::plain(text).with_mode(mode).codes() =~= seq![mode]);
}

/// The parameters of a style are its modes in the order they were applied,
/// then those of the foreground, then those of the background, whatever the
/// order in which the three were set.
pub proof fn modes_then_foreground_then_background(style: Style)
    ensures
        ({
            let modes = style.modes.len() as int;
            let fore = foreground_codes(style.foreground).len() as int;
            let back = background_codes(style.background).len() as int;
            &&& style.codes().len() == modes + fore + back
            &&& style.codes().subrange(0, modes) == style.modes
            &&& style.codes().subrange(modes, modes + fore) == foreground_codes(style.foreground)
            &&& style.codes().subrange(modes + fore, modes + fore + back) == background_codes(
                style.background,
            )
        }),
{
    let modes = style.modes.len() as int;
    let fore = foreground_codes(style.foreground).len() as int;
    let back = background_codes(style.background).len() as int;
    assert(style.codes().subrange(0, modes) =~= style.modes);
    assert(style.codes().subrange(modes, modes + fore) =~= foreground_codes(style.foreground));
    assert(style.codes().subrange(modes + fore, modes + fore + back) =~= background_codes(
        style.background,
    ));
}

/// With at least one mode and at least one color, the rendering writes the
/// modes first and the colors after them, one `;` between the two.
pub proof fn modes_render_before_colors(style: Style)
    requires
        style.modes.len() > 0,
        style.foreground != ForegroundColor::Empty || style.background != BackgroundColor::Empty,
    ensures
        style.rendered() == framed(
            joined(style.modes) + seq![';'] + joined(
                foreground_codes(style.foreground) + background_codes(style.background),
            ),
            style.text,
        ),
{
    let colors = foreground_codes(style.foreground) + background_codes(style.background);
    assert(style.codes() =~= style.modes + colors);
    joined_concatenation(style.modes, colors);
}

/// With both colors set, the rendering writes the foreground first and the
/// background after it, one `;` between the two.
pub proof fn foreground_renders_before_background(style: Style)
    requires
        style.modes.len() == 0,
        style.foreground != ForegroundColor::Empty,
        style.background != BackgroundColor::Empty,
    ensures
        style.rendered() == framed(
            joined(foreground_codes(style.foreground)) + seq![';'] + joined(
                background_codes(style.background),
            ),
            style.text,
        ),
{
    let fore = foreground_codes(style.foreground);
    let back = background_codes(style.background);
    assert(style.codes() =~= fore + back);
    joined_concatenation(fore, back);
}

/// The five parameters of a 24-bit color, joined: the selector, `2`, and
/// the three components.
pub open spec fn true_color(selector: u8, rgb: Rgb) -> Seq<char> {
    decimal(selector as nat) + seq![';', '2', ';'] + decimal(rgb.red as nat) + seq![';']
        + decimal(rgb.green as nat) + seq![';'] + decimal(rgb.blue as nat)
}

/// An RGB foreground as the only attribute renders as
/// `ESC [ 38;2;R;G;B m`, the text, and the reset.
pub proof fn rgb_foreground_renders_true_color(text: Seq<char>, rgb: Rgb)
    ensures
        Style::plain(text).with_foreground(ForegroundColor::Rgb(rgb)).rendered() == framed(
            true_color(38, rgb),
            text,
        ),
        decimal(38) == seq!['3', '8'],
{
    let style = Style::plain(text).with_foreground(ForegroundColor::Rgb(rgb));
    assert(style.codes() =~= seq![38u8, 2u8, rgb.red, rgb.green, rgb.blue]);
    true_color_joined(38, rgb);
    reveal_with_fuel(decimal, 2);
    assert(decimal(38) =~= seq!['3', '8']);
}

/// An RGB background as the only attribute renders as
/// `ESC [ 48;2;R;G;B m`, the text, and the reset.
pub proof fn rgb_background_renders_true_color(text: Seq<char>, rgb: Rgb)
    ensures
        Style::plain(text).with_background(BackgroundColor::Rgb(rgb)).rendered() == framed(
            true_color(48, rgb),
            text,
        ),
        decimal(48) == seq!['4', '8'],
{
    let style = Style::plain(text).with_background(BackgroundColor::Rgb(rgb));
    assert(style.codes() =~= seq![48u8, 2u8, rgb.red, rgb.green, rgb.blue]);
    true_color_joined(48, rgb);
    reveal_with_fuel(decimal, 2);
    assert(decimal(48) =~= seq!['4', '8']);
}

/// Joining the five parameters of a 24-bit color gives [`true_color`].
proof fn true_color_joined(selector: u8, rgb: Rgb)
    ensures
        joined(seq![selector, 2u8, rgb.red, rgb.green, rgb.blue]) == true_color(selector, rgb),
{
    let five = seq![selector, 2u8, rgb.red, rgb.green, rgb.blue];
    let four = seq![selector, 2u8, rgb.red, rgb.green];
    let three = seq![selector, 2u8, rgb.red];
    let two = seq![selector, 2u8];
    let one = seq![selector];
    assert(five.drop_last() =~= four);
    assert(four.drop_last() =~= three);
    assert(three.drop_last() =~= two);
    assert(two.drop_last() =~= one);
    assert(decimal(2) =~= seq!['2']);
    assert(joined(one) == decimal(selector as nat));
    assert(joined(two) =~= decimal(selector as nat) + seq![';', '2']);
    assert(joined(three) =~= joined(two) + seq![';'] + decimal(rgb.red as nat));
    assert(joined(four) =~= joined(three) + seq![';'] + decimal(rgb.green as nat));
    assert(joined(five) =~= joined(four) + seq![';'] + decimal(rgb.blue as nat));
    assert(joined(five) =~= true_color(selector, rgb));
}

/// A foreground index that is no named color renders through the 8-bit
/// form `ESC [ 38;5;N m`, never as the bare index.
pub proof fn indexed_foreground_renders_extended(text: Seq<char>, code: u8)
    requires
        !is_named(code),
    ensures
        Style::plain(text).with_foreground(ForegroundColor::Simple(code)).rendered() == framed(
            seq!['3', '8', ';', '5', ';'] + decimal(code as nat),
            text,
        ),
{
    let style = Style::plain(text).with_foreground(ForegroundColor::Simple(code));
    let three = seq![38u8, 5u8, code];
    assert(style.codes() =~= three);
    extended_joined(38, code);
    reveal_with_fuel(decimal, 2);
    assert(decimal(38) =~= seq!['3', '8']);
    assert(decimal(38) + seq![';', '5', ';'] + decimal(code as nat) =~= seq![
        '3',
        '8',
        ';',
        '5',
        ';',
    ] + decimal(code as nat));
}

/// A background index that is no named color renders through the 8-bit
/// form `ESC [ 48;5;N m`, with the index as it is.
pub proof fn indexed_background_renders_extended(text: Seq<char>, code: u8)
    requires
        !is_named(code),
    ensures
        Style::plain(text).with_background(BackgroundColor::Simple(code)).rendered() == framed(
            seq!['4', '8', ';', '5', ';'] + decimal(code as nat),
            text,
        ),
{
    let style = Style::plain(text).with_background(BackgroundColor::Simple(code));
    let three = seq![48u8, 5u8, code];
    assert(style.codes() =~= three);
    extended_joined(48, code);
    reveal_with_fuel(decimal, 2);
    assert(decimal(48) =~= seq!['4', '8']);
    assert(decimal(48) + seq![';', '5', ';'] + decimal(code as nat) =~= seq![
        '4',
        '8',
        ';',
        '5',
        ';',
    ] + decimal(code as nat));
}

/// Joining the three parameters of an 8-bit color.
proof fn extended_joined(selector: u8, code: u8)
    ensures
        joined(seq![selector, 5u8, code]) == decimal(selector as nat) + seq![';', '5', ';']
            + decimal(code as nat),
{
    let three = seq![selector, 5u8, code];
    let two = seq![selector, 5u8];
    let one = seq![selector];
    assert(three.drop_last() =~= two);
    assert(two.drop_last() =~= one);
    assert(decimal(5) =~= seq!['5']);
    assert(joined(one) == decimal(selector as nat));
    assert(joined(two) =~= decimal(selector as nat) + seq![';', '5']);
    assert(joined(three) =~= joined(two) + seq![';'] + decimal(code as nat));
    assert(joined(three) =~= decimal(selector as nat) + seq![';', '5', ';'] + decimal(
        code as nat,
    ));
}

/// A style with no attribute renders with an empty parameter list:
/// `ESC [ m`, the text, and the reset.
pub proof fn plain_text_renders_empty_list(text: Seq<char>)
    ensures
        Style::plain(text).rendered() == framed(Seq::empty(), text),
{
    assert(Style::plain(text).codes() =~= Seq::<u8>::empty());
}

/// Setting a color replaces the one that was set before in that slot, and
/// the two slots do not touch each other: the order in which foreground
/// and background were set does not show.
pub proof fn last_color_wins(
    style: Style,
    first: ForegroundColor,
    second: ForegroundColor,
    back: BackgroundColor,
)
    ensures
        style.with_foreground(first).with_foreground(second) == style.with_foreground(second),
        style.with_foreground(first).with_background(back) == style.with_background(
            back,
        ).with_foreground(first),
{
}

/// Applying a mode appends it, also when it is already there, and leaves
/// the colors alone.
pub proof fn modes_accumulate(style: Style, mode: u8)
    ensures
        style.with_mode(mode).modes.len() == style.modes.len() + 1,
        style.with_mode(mode).modes.last() == mode,
        style.with_mode(mode).modes.drop_last() == style.modes,
        style.with_mode(mode).foreground == style.foreground,
        style.with_mode(mode).background == style.background,
{
    assert(style.with_mode(mode).modes.drop_last() =~= style.modes);
}

/// A string decodes to a color exactly when six hexadecimal digits follow
/// its optional `#`.
pub proof fn decoding_succeeds_on_six_digits(color: Seq<char>)
    ensures
        parse_hex(color) is Ok <==> hex_digits(color).len() >= 6 && forall|i: int|
            0 <= i < 6 ==> (#[trigger] hex_digit(hex_digits(color)[i])) is Some,
{
    let digits = hex_digits(color);
    if digits.len() >= 6 {
        if parse_hex(color) is Ok {
            assert forall|i: int| 0 <= i < 6 implies (#[trigger] hex_digit(digits[i])) is Some by {
                assert(i == 0 || i == 1 || i == 2 || i == 3 || i == 4 || i == 5);
            }
        }
        if forall|i: int| 0 <= i < 6 ==> (#[trigger] hex_digit(digits[i])) is Some {
            assert(hex_digit(digits[0]) is Some);
            assert(hex_digit(digits[1]) is Some);
            assert(hex_digit(digits[2]) is Some);
            assert(hex_digit(digits[3]) is Some);
            assert(hex_digit(digits[4]) is Some);
            assert(hex_digit(digits[5]) is Some);
        }
    }
}

/// The `#` is optional: digits decode alike with it and without it.
pub proof fn hash_is_optional(digits: Seq<char>)
    requires
        digits.len() == 0 || digits[0] != '#',
    ensures
        parse_hex(seq!['#'] + digits) == parse_hex(digits),
{
    assert((seq!['#'] + digits).skip(1) =~= digits);
}

/// Rendering is repeatable: whatever two calls of
/// [`StyledString::to_string`] on one value return, it is the same text.
pub proof fn rendering_is_repeatable(styled: StyledString, first: String, second: String)
    requires
        call_ensures(StyledString::to_string, (&styled,), first),
        call_ensures(StyledString::to_string, (&styled,), second),
    ensures
        first@ == second@,
        first@ == styled@.rendered(),
{
}

} // verus!

//! The SGR parameter sequence of a style and its textual form.
//!
//! A style is serialized as a list of small integers: first every mode in
//! the order it was applied, then the foreground color, then the background
//! color. The list is written in decimal, separated by `;`, between the
//! control sequence introducer `ESC [` and the final byte `m`; the text
//! follows, and the reset sequence `ESC [ 0 m` closes it.

use crate::background::BackgroundColor;
use crate::constants::{
    is_named, BACKGROUND, BACKGROUND_OFFSET, FOREGROUND, HIGH_DEPTH, LOW_DEPTH,
};
use crate::foreground::ForegroundColor;
use vstd::prelude::*;
use vstd::string::StringExecFns;

verus! {

/// The parameters that select a foreground color.
///
/// A named color stands for itself; any other index takes the 8-bit form
/// `38;5;N`; an RGB value takes the 24-bit form `38;2;R;G;B`.
pub open spec fn foreground_codes(color: ForegroundColor) -> Seq<u8> {
    match color {
        ForegroundColor::Empty => Seq::empty(),
        ForegroundColor::Simple(code) => if is_named(code) {
            seq![code]
        } else {
            seq![FOREGROUND, LOW_DEPTH, code]
        },
        ForegroundColor::Rgb(rgb) => seq![FOREGROUND, HIGH_DEPTH, rgb.red, rgb.green, rgb.blue],
    }
}

/// The parameters that select a background color.
///
/// A named color is raised by ten, the distance between the foreground and
/// the background block; any other index takes the 8-bit form `48;5;N`
/// unchanged; an RGB value takes the 24-bit form `48;2;R;G;B`.
pub open spec fn background_codes(color: BackgroundColor) -> Seq<u8> {
    match color {
        BackgroundColor::Empty => Seq::empty(),
        BackgroundColor::Simple(code) => if is_named(code) {
            seq![(code + BACKGROUND_OFFSET) as u8]
        } else {
            seq![BACKGROUND, LOW_DEPTH, code]
        },
        BackgroundColor::Rgb(rgb) => seq![BACKGROUND, HIGH_DEPTH, rgb.red, rgb.green, rgb.blue],
    }
}

/// The whole parameter list: modes, then foreground, then background.
pub open spec fn style_codes(
    modes: Seq<u8>,
    foreground: ForegroundColor,
    background: BackgroundColor,
) -> Seq<u8> {
    modes + foreground_codes(foreground) + background_codes(background)
}

/// The character that writes the digit `d`.
pub open spec fn digit(d: nat) -> char
    recommends
        d < 10,
{
    if d == 0 {
        '0'
    } else if d == 1 {
        '1'
    } else if d == 2 {
        '2'
    } else if d == 3 {
        '3'
    } else if d == 4 {
        '4'
    } else if d == 5 {
        '5'
    } else if d == 6 {
        '6'
    } else if d == 7 {
        '7'
    } else if d == 8 {
        '8'
    } else {
        '9'
    }
}

/// The decimal numeral of `n`, without sign or leading zeros.
pub open spec fn decimal(n: nat) -> Seq<char>
    decreases n,
{
    if n < 10 {
        seq![digit(n)]
    } else {
        decimal(n / 10).push(digit(n % 10))
    }
}

/// The numerals of `codes`, with a `;` between neighbours.
pub open spec fn joined(codes: Seq<u8>) -> Seq<char>
    decreases codes.len(),
{
    if codes.len() == 0 {
        Seq::empty()
    } else if codes.len() == 1 {
        decimal(codes[0] as nat)
    } else {
        joined(codes.drop_last()) + seq![';'] + decimal(codes.last() as nat)
    }
}

/// The opening of every escape sequence: `ESC [`.
pub open spec fn introducer() -> Seq<char> {
    seq!['\x1b', '[']
}

/// The sequence that clears every attribute: `ESC [ 0 m`.
pub open spec fn reset() -> Seq<char> {
    seq!['\x1b', '[', '0', 'm']
}

/// `text` after the introducer, `parameters` and the final byte `m`, and
/// before the reset.
pub open spec fn framed(parameters: Seq<char>, text: Seq<char>) -> Seq<char> {
    introducer() + parameters + seq!['m'] + text + reset()
}

/// The escape sequence that applies `codes` to `text` and resets afterwards.
pub open spec fn escaped(codes: Seq<u8>, text: Seq<char>) -> Seq<char> {
    framed(joined(codes), text)
}

/// The one-character string that writes the digit `d`.
fn digit_str(d: u8) -> (s: &'static str)
    requires
        d < 10,
    ensures
        s@ == seq![digit(d as nat)],
{
    proof {
        reveal_strlit("0");
        reveal_strlit("1");
        reveal_strlit("2");
        reveal_strlit("3");
        reveal_strlit("4");
        reveal_strlit("5");
        reveal_strlit("6");
        reveal_strlit("7");
        reveal_strlit("8");
        reveal_strlit("9");
    }
    let s = if d == 0 {
        "0"
    } else if d == 1 {
        "1"
    } else if d == 2 {
        "2"
    } else if d == 3 {
        "3"
    } else if d == 4 {
        "4"
    } else if d == 5 {
        "5"
    } else if d == 6 {
        "6"
    } else if d == 7 {
        "7"
    } else if d == 8 {
        "8"
    } else {
        "9"
    };
    assert(s@ =~= seq![digit(d as nat)]);
    s
}

/// Appends the decimal numeral of `n` to `out`.
fn push_decimal(out: &mut String, n: u8)
    ensures
        final(out)@ == old(out)@ + decimal(n as nat),
{
    let ghost before = out@;
    if n >= 100 {
        out.append(digit_str(n / 100));
    }
    if n >= 10 {
        out.append(digit_str((n / 10) % 10));
    }
    out.append(digit_str(n % 10));
    proof {
        reveal_with_fuel(decimal, 3);
        assert(out@ =~= before + decimal(n as nat));
    }
}

/// Writes `codes` in decimal with a `;` between neighbours.
pub fn join(codes: &[u8]) -> (out: String)
    ensures
        out@ == joined(codes@),
{
    let mut out = String::new();
    let mut i: usize = 0;
    while i < codes.len()
        invariant
            i <= codes.len(),
            out@ == joined(codes@.take(i as int)),
        decreases codes.len() - i,
    {
        proof {
            reveal_strlit(";");
            assert(codes@.take(i + 1).drop_last() =~= codes@.take(i as int));
        }
        if i > 0 {
            out.append(";");
        }
        push_decimal(&mut out, codes[i]);
        proof {
            reveal_with_fuel(joined, 2);
            assert(out@ =~= joined(codes@.take(i + 1)));
        }
        i += 1;
    }
    proof {
        assert(codes@.take(codes@.len() as int) =~= codes@);
    }
    out
}

/// Wraps `text` in the escape sequence that applies `codes`.
pub fn escape(codes: &[u8], text: &str) -> (out: String)
    ensures
        out@ == escaped(codes@, text@),
{
    proof {
        reveal_strlit("\x1b[");
        reveal_strlit("m");
        reveal_strlit("\x1b[0m");
    }
    let mut out = String::from_str("\x1b[");
    let list = join(codes);
    out.append(list.as_str());
    out.append("m");
    out.append(text);
    out.append("\x1b[0m");
    assert(out@ =~= escaped(codes@, text@));
    out
}

} // verus!

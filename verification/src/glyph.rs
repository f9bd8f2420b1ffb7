//! One terminal cell in 24-bit colour.
//!
//! A cell is the glyph wrapped in the escape sequence that selects a
//! direct RGB foreground colour and the one that resets it afterwards. The
//! sequence is written the same way whatever the environment says about
//! colour support.

use vstd::prelude::*;

verus! {

/// `String::push`: the standard library says that it appends the given
/// character to the end of the string.
pub assume_specification[ String::push ](text: &mut String, ch: char)
    ensures
        final(text)@ == old(text)@.push(ch),
;

/// The character of a decimal digit.
pub open spec fn digit(d: nat) -> char
    recommends
        d < 10,
{
    (48 + d) as char
}

/// A number in decimal, without sign or leading zeros.
pub open spec fn decimal(n: nat) -> Seq<char>
    decreases n,
{
    if n < 10 {
        seq![digit(n)]
    } else {
        decimal(n / 10).push(digit(n % 10))
    }
}

/// The opening of the colour sequence, up to the red channel: `ESC [ 3 8 ; 2 ;`.
pub open spec fn colour_intro() -> Seq<char> {
    seq!['\x1b', '[', '3', '8', ';', '2', ';']
}

/// The sequence that ends the colour: `ESC [ 0 m`.
pub open spec fn colour_reset() -> Seq<char> {
    seq!['\x1b', '[', '0', 'm']
}

/// The glyph in the given foreground colour:
/// `ESC[38;2;<red>;<green>;<blue>m`, the glyph, `ESC[0m`.
pub open spec fn coloured_glyph(glyph: char, red: u8, green: u8, blue: u8) -> Seq<char> {
    colour_intro() + decimal(red as nat) + seq![';'] + decimal(green as nat) + seq![';'] + decimal(
        blue as nat,
    ) + seq!['m', glyph] + colour_reset()
}

/// The character of a decimal digit.
fn digit_char(d: u8) -> (c: char)
    requires
        d < 10,
    ensures
        c == digit(d as nat),
{
    (48u8 + d) as char
}

/// Appends a colour channel in decimal.
fn push_decimal(text: &mut String, value: u8)
    ensures
        final(text)@ == old(text)@ + decimal(value as nat),
{
    reveal_with_fuel(decimal, 3);
    if value >= 100 {
        text.push(digit_char(value / 100));
    }
    if value >= 10 {
        text.push(digit_char(value / 10 % 10));
    }
    text.push(digit_char(value % 10));
    assert(text@ =~= old(text)@ + decimal(value as nat));
}

/// Appends one coloured cell to `text`.
pub fn push_coloured_glyph(text: &mut String, glyph: char, red: u8, green: u8, blue: u8)
    ensures
        final(text)@ == old(text)@ + coloured_glyph(glyph, red, green, blue),
{
    proof {
        reveal_strlit("\x1b[38;2;");
        reveal_strlit("\x1b[0m");
    }
    text.append("\x1b[38;2;");
    assert(text@ =~= old(text)@ + colour_intro());
    push_decimal(text, red);
    text.push(';');
    push_decimal(text, green);
    text.push(';');
    push_decimal(text, blue);
    text.push('m');
    text.push(glyph);
    text.append("\x1b[0m");
    assert(text@ =~= old(text)@ + coloured_glyph(glyph, red, green, blue));
}

} // verus!

//! Building the text of a cell: decimal numbers and colour escapes.

use vstd::prelude::*;
use vstd::string::StringExecFns;

verus! {

/// `String::push` of the standard library appends one character to the
/// string and leaves what was there before in place.
pub assume_specification[ String::push ](s: &mut String, ch: char)
    ensures
        final(s)@ == old(s)@.push(ch),
;

/// The ten decimal digits in order.
pub open spec fn digits() -> Seq<char> {
    seq!['0', '1', '2', '3', '4', '5', '6', '7', '8', '9']
}

/// A number in decimal, without leading zeros.
pub open spec fn decimal(n: nat) -> Seq<char>
    decreases n,
{
    if n < 10 {
        seq![digits()[n as int]]
    } else {
        decimal(n / 10).push(digits()[(n % 10) as int])
    }
}

/// What opens a background colour: the escape character, then `[48;2;`.
pub open spec fn escape_lead() -> Seq<char> {
    seq!['\x1b', '[', '4', '8', ';', '2', ';']
}

/// A text on a background of the given colour: the lead, the three
/// channels in decimal with `;` between them, `m`, and the text.
pub open spec fn rgb_text(text: Seq<char>, r: nat, g: nat, b: nat) -> Seq<char> {
    escape_lead() + decimal(r) + seq![';'] + decimal(g) + seq![';'] + decimal(b) + seq!['m']
        + text
}

/// The character of one decimal digit.
fn digit_char(d: u8) -> (c: char)
    requires
        d < 10,
    ensures
        c == digits()[d as int],
{
    match d {
        0 => '0',
        1 => '1',
        2 => '2',
        3 => '3',
        4 => '4',
        5 => '5',
        6 => '6',
        7 => '7',
        8 => '8',
        _ => '9',
    }
}

/// Appends a number in decimal.
pub fn push_decimal(out: &mut String, n: u8)
    ensures
        final(out)@ == old(out)@ + decimal(n as nat),
{
    reveal_with_fuel(decimal, 3);
    if n >= 100 {
        out.push(digit_char(n / 100));
    }
    if n >= 10 {
        out.push(digit_char((n / 10) % 10));
    }
    out.push(digit_char(n % 10));
    assert(out@ =~= old(out)@ + decimal(n as nat));
}

/// Appends a text on a background of the given colour.
pub fn push_rgb(out: &mut String, text: &str, r: u8, g: u8, b: u8)
    ensures
        final(out)@ == old(out)@ + rgb_text(text@, r as nat, g as nat, b as nat),
{
    proof {
        reveal_strlit("\x1B[48;2;");
        assert("\x1B[48;2;"@ =~= escape_lead());
    }
    out.append("\x1B[48;2;");
    push_decimal(out, r);
    out.push(';');
    push_decimal(out, g);
    out.push(';');
    push_decimal(out, b);
    out.push('m');
    out.append(text);
    assert(out@ =~= old(out)@ + rgb_text(text@, r as nat, g as nat, b as nat));
}

/// A text on a background of the given colour.
pub fn rgb_color_string(text: &str, r: u8, g: u8, b: u8) -> (s: String)
    ensures
        s@ == rgb_text(text@, r as nat, g as nat, b as nat),
{
    let mut s = String::new();
    push_rgb(&mut s, text, r, g, b);
    assert(s@ =~= rgb_text(text@, r as nat, g as nat, b as nat));
    s
}

} // verus!

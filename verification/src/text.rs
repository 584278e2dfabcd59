//! Decimal labels for fixed-point color components.
//!
//! The control panel shows the current background color as text. A component
//! of `v` hundredths reads as a two-place decimal, `"0.50"` for 50, and a
//! whole color reads as `"Color { r: 0.50, g: 0.00, b: 0.00, a: 1.00 }"`.

use vstd::prelude::*;
use vstd::string::StringExecFns;
use crate::color::Color;

verus! {

/// The decimal digit character for `d`, which must lie in `0 ..= 9`.
pub open spec fn digit_char(d: int) -> char {
    if d == 0 {
        '0'
    } else if d == 1 {
        '1'
    } else if d == 2 {
        '2'
    } else if d == 3 {
        '3'
    } else if d == 4 {
        '4'
    } else if d == 5 {
        '5'
    } else if d == 6 {
        '6'
    } else if d == 7 {
        '7'
    } else if d == 8 {
        '8'
    } else {
        '9'
    }
}

/// The two-place decimal that a component of `v` hundredths reads as:
/// the whole part, a point, tenths, hundredths.
pub open spec fn component_label(v: int) -> Seq<char> {
    seq![digit_char(v / 100), '.', digit_char((v / 10) % 10), digit_char(v % 10)]
}

/// The text that a whole color reads as.
pub open spec fn color_label(c: Color) -> Seq<char> {
    "Color { r: "@ + component_label(c.r as int) + ", g: "@ + component_label(c.g as int)
        + ", b: "@ + component_label(c.b as int) + ", a: "@ + component_label(c.a as int) + " }"@
}

/// The one-character string of the decimal digit `d`.
fn digit_str(d: u8) -> (s: &'static str)
    requires
        d <= 9,
    ensures
        s@ =~= seq![digit_char(d as int)],
{
    proof {
        reveal_strlit("0");
        reveal_strlit("1");
        reveal_strlit("2");
        reveal_strlit("3");
        reveal_strlit("4");
        reveal_strlit("5");
        reveal_strlit("6");
        reveal_strlit("7");
        reveal_strlit("8");
        reveal_strlit("9");
    }
    match d {
        0 => "0",
        1 => "1",
        2 => "2",
        3 => "3",
        4 => "4",
        5 => "5",
        6 => "6",
        7 => "7",
        8 => "8",
        _ => "9",
    }
}

/// Writes the two-place decimal of a component of `v` hundredths onto `out`.
fn push_component_label(out: &mut String, v: u8)
    ensures
        final(out)@ == old(out)@ + component_label(v as int),
{
    proof {
        reveal_strlit(".");
    }
    out.append(digit_str(v / 100));
    out.append(".");
    out.append(digit_str((v / 10) % 10));
    out.append(digit_str(v % 10));
    assert(out@ =~= old(out)@ + component_label(v as int));
}

/// The text of a whole color, as the panel's readout line shows it.
pub fn color_text(c: &Color) -> (s: String)
    ensures
        s@ == color_label(*c),
{
    let mut s = String::new();
    s.append("Color { r: ");
    push_component_label(&mut s, c.r);
    s.append(", g: ");
    push_component_label(&mut s, c.g);
    s.append(", b: ");
    push_component_label(&mut s, c.b);
    s.append(", a: ");
    push_component_label(&mut s, c.a);
    s.append(" }");
    assert(s@ =~= color_label(*c));
    s
}

} // verus!

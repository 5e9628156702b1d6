//! Terminal colouring of a text with a 24-bit foreground colour.

use vstd::prelude::*;
use crate::category::Rgb;
use crate::decimal::decimal;

verus! {

/// The escape sequence that switches the foreground to `color`: the control
/// sequence introducer, the parameters `38;2;` and the three channels in
/// decimal notation separated by `;`, closed by `m`.
pub open spec fn foreground_prefix(color: Rgb) -> Seq<char> {
    seq!['\u{1b}', '[', '3', '8', ';', '2', ';'] + decimal(color.r as nat) + seq![';'] + decimal(
        color.g as nat,
    ) + seq![';'] + decimal(color.b as nat) + seq!['m']
}

/// The escape sequence that resets every style.
pub open spec fn reset_suffix() -> Seq<char> {
    seq!['\u{1b}', '[', '0', 'm']
}

/// `text` wrapped so that a terminal shows it in `color`.
pub open spec fn painted(color: Rgb, text: Seq<char>) -> Seq<char> {
    foreground_prefix(color) + text + reset_suffix()
}

/// Calls `nu_ansi_term::Color::paint` on `Color::Rgb` and renders the painted
/// string. Trusted: the rendering is the foreground prefix for the three
/// channels, the text unchanged, and the reset sequence.
#[verifier::external_body]
pub(crate) fn paint_rgb(color: Rgb, text: &str) -> (out: String)
    ensures
        out@ == painted(color, text@),
{
    nu_ansi_term::Color::Rgb(color.r, color.g, color.b).paint(text).to_string()
}

} // verus!

//! Terminal styles: the declarations of `nu_ansi_term`'s types and the few of
//! its functions that the renderer relies on.

use vstd::prelude::*;
use nu_ansi_term::{Color, Style};

verus! {

#[verifier::external_type_specification]
pub struct ExColor(nu_ansi_term::Color);

#[verifier::external_type_specification]
pub struct ExStyle(nu_ansi_term::Style);

/// A style with no property set: it writes no control codes at all.
pub open spec fn plain_style() -> Style {
    Style {
        foreground: None,
        background: None,
        is_bold: false,
        is_dimmed: false,
        is_italic: false,
        is_underline: false,
        is_blink: false,
        is_reverse: false,
        is_hidden: false,
        is_strikethrough: false,
        prefix_with_reset: false,
    }
}

/// The style that clears every active attribute before anything else.
pub open spec fn unset_style() -> Style {
    Style { prefix_with_reset: true, ..plain_style() }
}

/// The code that returns the terminal to its default attributes.
pub open spec fn reset_code() -> Seq<char> {
    seq!['\x1b', '[', '0', 'm']
}

/// The control codes that `nu_ansi_term` writes before text in style `s`.
pub uninterp spec fn prefix_of(s: Style) -> Seq<char>;

/// The control codes that `nu_ansi_term` writes after text in style `s`.
pub open spec fn suffix_of(s: Style) -> Seq<char> {
    if s == plain_style() {
        Seq::empty()
    } else {
        reset_code()
    }
}

/// Relies on `Style::default`: every property unset.
pub assume_specification[ <Style as core::default::Default>::default ]() -> (r: Style)
    ensures
        r == plain_style(),
;

/// Relies on `Style::new`, which is `Style::default`.
pub assume_specification[ Style::new ]() -> (r: Style)
    ensures
        r == plain_style(),
;

/// Relies on `Style::fg`: the same style with the foreground colour set.
pub assume_specification[ Style::fg ](s: &Style, foreground: Color) -> (r: Style)
    ensures
        r == (Style { foreground: Some(foreground), ..*s }),
;

/// Relies on `Style::on`: the same style with the background colour set.
pub assume_specification[ Style::on ](s: &Style, background: Color) -> (r: Style)
    ensures
        r == (Style { background: Some(background), ..*s }),
;

/// Relies on `Style::bold`: the same style, bold.
pub assume_specification[ Style::bold ](s: &Style) -> (r: Style)
    ensures
        r == (Style { is_bold: true, ..*s }),
;

/// Relies on `Style::reset_before_style`: the same style, whose prefix first
/// resets the terminal.
pub assume_specification[ Style::reset_before_style ](s: &Style) -> (r: Style)
    ensures
        r == (Style { prefix_with_reset: true, ..*s }),
;

/// Relies on `Style::prefix` and its `Display`: the codes written before
/// styled text; a plain style writes none.
#[verifier::external_body]
pub(crate) fn prefix_text(s: &Style) -> (r: String)
    ensures
        r@ == prefix_of(*s),
        *s == plain_style() ==> r@.len() == 0,
{
    s.prefix().to_string()
}

/// Relies on `Style::suffix` and its `Display`: nothing for a plain style,
/// otherwise the reset code.
#[verifier::external_body]
pub(crate) fn suffix_text(s: &Style) -> (r: String)
    ensures
        r@ == suffix_of(*s),
{
    s.suffix().to_string()
}

/// The style used where a theme has no entry, and after every rendered line.
pub fn get_style_unset() -> (r: Style)
    ensures
        r == unset_style(),
{
    Style::default().reset_before_style()
}

} // verus!

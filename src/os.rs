//! Platform logos: the art template of a platform and the theme it is drawn in.

use vstd::prelude::*;
use crate::render::{render_spec, render_template, rows_view};
use nu_ansi_term::Style;
use crate::theme::{theme_palette, Theme};

pub mod mac_os;

verus! {

/// What a platform provides: its logo template and its theme.
pub trait OS {
    /// The styles of the platform's theme.
    spec fn theme_styles() -> Seq<Style>;

    fn get_image() -> Image;

    fn get_theme() -> (r: Theme)
        ensures
            r@ == Self::theme_styles(),
    ;
}

/// A logo.
pub enum Image {
    Ascii(AsciiImage),
}

/// A logo drawn in text: a multi-line template with placeholder tokens.
pub struct AsciiImage {
    pub content: String,
}

impl Image {
    /// The template text of the logo.
    pub open spec fn template(&self) -> Seq<char> {
        match self {
            Image::Ascii(a) => a.content@,
        }
    }

    /// The logo's lines rendered in `theme`, each with its visible length.
    pub fn get_lines(&self, theme: &Theme) -> (r: Vec<(String, u64)>)
        ensures
            rows_view(r@) == render_spec(self.template(), theme_palette(theme@)),
    {
        match self {
            Image::Ascii(ascii) => {
                let pal = theme.palette();
                render_template(ascii.content.as_str(), &pal)
            },
        }
    }
}

} // verus!

//! The macOS logo and its theme.

use vstd::prelude::*;
use nu_ansi_term::{Color, Style};
use crate::os::{AsciiImage, Image, OS};
use crate::style::plain_style;
use crate::theme::Theme;

verus! {

pub struct MacOS {}

/// A bold style in foreground colour `c`.
pub open spec fn bold_fg(c: Color) -> Style {
    Style { foreground: Some(c), is_bold: true, ..plain_style() }
}

/// The macOS theme: green, yellow, red, red, purple and blue, all bold.
pub open spec fn mac_styles() -> Seq<Style> {
    seq![
        bold_fg(Color::Green),
        bold_fg(Color::Yellow),
        bold_fg(Color::Red),
        bold_fg(Color::Red),
        bold_fg(Color::Purple),
        bold_fg(Color::Blue),
    ]
}

impl OS for MacOS {
    open spec fn theme_styles() -> Seq<Style> {
        mac_styles()
    }

    fn get_image() -> (r: Image) {
        Image::Ascii(
            AsciiImage {
                content: r#"${0}                    c.'
                 ,xNMM.
               .OMMMMo
               lMM"
     .;loddo:.  .olloddol;.
   cKMMMMMMMMMMNWMMMMMMMMMM0:
${1} .KMMMMMMMMMMMMMMMMMMMMMMMWd.
 XMMMMMMMMMMMMMMMMMMMMMMMX.
${2};MMMMMMMMMMMMMMMMMMMMMMMM:
:MMMMMMMMMMMMMMMMMMMMMMMM:
${3}.MMMMMMMMMMMMMMMMMMMMMMMMX.
 kMMMMMMMMMMMMMMMMMMMMMMMMWd.
 ${4}'XMMMMMMMMMMMMMMMMMMMMMMMMMMk
  'XMMMMMMMMMMMMMMMMMMMMMMMMK.
    ${5}kMMMMMMMMMMMMMMMMMMMMMMd
     ;KMMMMMMMWXXWMMMMMMMk.
       "cooc*"    "*coo'"
"#.to_owned(),
            },
        )
    }

    fn get_theme() -> (r: Theme) {
        let styles = vec![
            Style::new().fg(Color::Green).bold(),
            Style::new().fg(Color::Yellow).bold(),
            Style::new().fg(Color::Red).bold(),
            Style::new().fg(Color::Red).bold(),
            Style::new().fg(Color::Purple).bold(),
            Style::new().fg(Color::Blue).bold(),
        ];
        assert(styles@ =~= mac_styles());
        Theme::new(styles)
    }
}

} // verus!

//! Themes: the ordered palette of styles of a platform's logo, and the title
//! rendered in it.

use vstd::prelude::*;
use nu_ansi_term::Style;
use crate::render::{Codes, Palette, PaletteView, StyleCodes};
use crate::style::{get_style_unset, plain_style, prefix_of, prefix_text, suffix_of, suffix_text, unset_style};
use crate::token::{find_char, next_of};

verus! {

/// An ordered palette of styles: index 0 is the primary style, index 1 the
/// secondary one.
pub struct Theme {
    styles: Vec<Style>,
}

impl View for Theme {
    type V = Seq<Style>;

    closed spec fn view(&self) -> Seq<Style> {
        self.styles@
    }
}

/// The control codes of a style.
pub open spec fn codes_of(s: Style) -> Codes {
    (prefix_of(s), suffix_of(s))
}

/// The codes that rendering in a theme uses: those of each entry, of the
/// neutral style, and of the plain style that is active before any
/// placeholder.
pub open spec fn theme_palette(styles: Seq<Style>) -> PaletteView {
    PaletteView {
        styles: styles.map_values(|s: Style| codes_of(s)),
        unset: codes_of(unset_style()),
        initial: codes_of(plain_style()),
    }
}

/// `r` is the style at index `i`, or `None` where there is no such entry.
pub open spec fn style_at(r: Option<&Style>, styles: Seq<Style>, i: int) -> bool {
    match r {
        Some(s) => 0 <= i < styles.len() && *s == styles[i],
        None => !(0 <= i < styles.len()),
    }
}

/// A title `user@host` in the primary style, the separator unstyled: the text
/// before the first `@`, then the text between it and the next `@` (or the
/// end). A title without `@` renders as nothing.
pub open spec fn title_spec(t: Seq<char>, primary: Seq<char>, unset: Seq<char>) -> Seq<char> {
    let p = next_of(t, '@', 0);
    if p >= t.len() {
        Seq::empty()
    } else {
        let q = next_of(t, '@', p + 1);
        primary + t.subrange(0, p) + unset + seq!['@'] + primary + t.subrange(p + 1, q) + unset
    }
}

/// Lays out a title `user@host` with the given codes, as `title_spec` says.
pub fn compose_title(title: &str, primary: &str, unset: &str) -> (r: String)
    ensures
        r@ == title_spec(title@, primary@, unset@),
{
    let n = title.unicode_len();
    let p = find_char(title, n, '@', 0);
    if p >= n {
        return String::new();
    }
    let q = find_char(title, n, '@', p + 1);
    let mut r = primary.to_owned();
    r.append(title.substring_char(0, p));
    r.append(unset);
    proof {
        reveal_strlit("@");
    }
    r.append("@");
    r.append(primary);
    r.append(title.substring_char(p + 1, q));
    r.append(unset);
    assert(r@ =~= title_spec(title@, primary@, unset@));
    r
}

impl Theme {
    pub fn new(styles: Vec<Style>) -> (r: Theme)
        ensures
            r@ == styles@,
    {
        Theme { styles }
    }

    /// The style at index 0, if any.
    pub fn get_primary(&self) -> (r: Option<&Style>)
        ensures
            style_at(r, self@, 0),
    {
        self.get_style(0)
    }

    /// The style at index 1, if any.
    pub fn get_secondary(&self) -> (r: Option<&Style>)
        ensures
            style_at(r, self@, 1),
    {
        self.get_style(1)
    }

    /// The style at `index`, or `None` where the theme has no such entry.
    pub fn get_style(&self, index: usize) -> (r: Option<&Style>)
        ensures
            style_at(r, self@, index as int),
    {
        if index < self.styles.len() {
            Some(&self.styles[index])
        } else {
            None
        }
    }

    /// The prefix of the style at `index`, or of the neutral style where the
    /// theme has none.
    pub fn prefix_or_unset(&self, index: usize) -> (r: String)
        ensures
            r@ == prefix_of(
                if index < self@.len() {
                    self@[index as int]
                } else {
                    unset_style()
                },
            ),
    {
        match self.get_style(index) {
            Some(s) => prefix_text(s),
            None => prefix_text(&get_style_unset()),
        }
    }

    /// The theme resolved to control codes.
    pub fn palette(&self) -> (r: Palette)
        ensures
            r@ == theme_palette(self@),
    {
        let mut styles: Vec<StyleCodes> = Vec::new();
        let mut k: usize = 0;
        while k < self.styles.len()
            invariant
                k <= self@.len(),
                styles@.map_values(|c: StyleCodes| c@) == self@.take(k as int).map_values(
                    |s: Style| codes_of(s),
                ),
            decreases self@.len() - k,
        {
            let s = &self.styles[k];
            let ghost before = styles@.map_values(|c: StyleCodes| c@);
            styles.push(StyleCodes { prefix: prefix_text(s), suffix: suffix_text(s) });
            assert(styles@.map_values(|c: StyleCodes| c@) =~= before.push(codes_of(*s)));
            assert(self@.take(k + 1).map_values(|s: Style| codes_of(s)) =~= self@.take(
                k as int,
            ).map_values(|s: Style| codes_of(s)).push(codes_of(*s)));
            k = k + 1;
        }
        assert(self@.take(k as int) =~= self@);
        let unset = get_style_unset();
        let plain = Style::default();
        let r = Palette {
            styles,
            unset: StyleCodes { prefix: prefix_text(&unset), suffix: suffix_text(&unset) },
            initial: StyleCodes { prefix: prefix_text(&plain), suffix: suffix_text(&plain) },
        };
        assert(r@.styles =~= theme_palette(self@).styles);
        r
    }

    /// The title `user@host` with both names in the primary style (the
    /// neutral style where the theme has none).
    pub fn render_title(&self, title: &String) -> (r: String)
        ensures
            r@ == title_spec(
                title@,
                prefix_of(
                    if 0 < self@.len() {
                        self@[0]
                    } else {
                        unset_style()
                    },
                ),
                prefix_of(unset_style()),
            ),
    {
        let primary = self.prefix_or_unset(0);
        let unset = prefix_text(&get_style_unset());
        compose_title(title.as_str(), primary.as_str(), unset.as_str())
    }
}

} // verus!

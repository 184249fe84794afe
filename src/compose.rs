//! The compositor: each rendered logo line, padded to a common column, followed
//! by the title, its underline, the information pairs or the colour swatch.

use vstd::prelude::*;
use nu_ansi_term::{Color, Style};
use crate::render::rows_view;
use crate::style::{get_style_unset, plain_style, prefix_of, prefix_text, unset_style};
use crate::theme::{title_spec, Theme};

verus! {

/// The columns between the widest logo line and the text beside it.
pub const GUTTER: u64 = 3;

/// What stands beside the logo: the raw title, the rendered title, the
/// information pairs, the codes of the secondary and neutral styles, and the
/// colour swatch.
pub struct RowParts {
    pub title: String,
    pub title_row: String,
    pub infos: Vec<(String, String)>,
    pub secondary: String,
    pub unset: String,
    pub swatch: String,
}

pub struct RowPartsView {
    pub title: Seq<char>,
    pub title_row: Seq<char>,
    pub infos: Seq<(Seq<char>, Seq<char>)>,
    pub secondary: Seq<char>,
    pub unset: Seq<char>,
    pub swatch: Seq<char>,
}

impl View for RowParts {
    type V = RowPartsView;

    open spec fn view(&self) -> RowPartsView {
        RowPartsView {
            title: self.title@,
            title_row: self.title_row@,
            infos: self.infos@.map_values(|p: (String, String)| (p.0@, p.1@)),
            secondary: self.secondary@,
            unset: self.unset@,
            swatch: self.swatch@,
        }
    }
}

/// `s` written `n` times.
pub open spec fn repeat(s: Seq<char>, n: nat) -> Seq<char>
    decreases n,
{
    if n == 0 {
        Seq::empty()
    } else {
        repeat(s, (n - 1) as nat) + s
    }
}

/// An information row: the label in the secondary style, then `: ` and the
/// value.
pub open spec fn info_row(pair: (Seq<char>, Seq<char>), secondary: Seq<char>, unset: Seq<char>) -> Seq<
    char,
> {
    secondary + pair.0 + unset + seq![':', ' '] + pair.1
}

/// The text beside logo line `i`: the title, then one dash per character of
/// the raw title, then the information pairs; after one empty row the swatch;
/// nothing elsewhere.
pub open spec fn content_spec(i: int, p: RowPartsView) -> Seq<char> {
    if i == 0 {
        p.title_row
    } else if i == 1 {
        repeat(seq!['-'], p.title.len())
    } else if 2 <= i < p.infos.len() + 2 {
        info_row(p.infos[i - 2], p.secondary, p.unset)
    } else if i == p.infos.len() + 3 {
        p.swatch
    } else {
        Seq::empty()
    }
}

/// The largest visible length among `rows`, 0 where there is none.
pub open spec fn max_len(rows: Seq<(Seq<char>, nat)>) -> nat
    decreases rows.len(),
{
    if rows.len() == 0 {
        0
    } else {
        let m = max_len(rows.drop_last());
        if rows.last().1 > m {
            rows.last().1
        } else {
            m
        }
    }
}

/// The spaces after a line of visible length `len`, to reach column
/// `max + GUTTER`; never negative.
pub open spec fn pad_spec(max: nat, len: nat) -> nat {
    if len >= max + GUTTER {
        0
    } else {
        (max + GUTTER - len) as nat
    }
}

/// The output rows: each logo line, its padding, then its content.
pub open spec fn compose_spec(rows: Seq<(Seq<char>, nat)>, p: RowPartsView) -> Seq<Seq<char>> {
    Seq::new(
        rows.len(),
        |i: int| rows[i].0 + repeat(seq![' '], pad_spec(max_len(rows), rows[i].1)) + content_spec(i, p),
    )
}

/// The background swatch: black, red, green, yellow, blue, purple, light blue
/// and white blocks of three columns, then the neutral prefix.
pub open spec fn swatch_spec() -> Seq<char> {
    let block = seq![' ', ' ', ' '];
    prefix_of(on_color(Color::Black)) + block + prefix_of(on_color(Color::Red)) + block
        + prefix_of(on_color(Color::Green)) + block + prefix_of(on_color(Color::Yellow)) + block
        + prefix_of(on_color(Color::Blue)) + block + prefix_of(on_color(Color::Purple)) + block
        + prefix_of(on_color(Color::LightBlue)) + block + prefix_of(on_color(Color::White)) + block
        + prefix_of(unset_style())
}

pub open spec fn on_color(c: Color) -> Style {
    Style { background: Some(c), ..plain_style() }
}

/// `s` written `n` times.
pub fn repeat_text(s: &str, n: u64) -> (r: String)
    ensures
        r@ == repeat(s@, n as nat),
{
    let mut r = String::new();
    let mut k: u64 = 0;
    while k < n
        invariant
            k <= n,
            r@ == repeat(s@, k as nat),
        decreases n - k,
    {
        r.append(s);
        k = k + 1;
    }
    r
}

/// The largest visible length among `lines`.
pub fn max_visible(lines: &Vec<(String, u64)>) -> (r: u64)
    ensures
        r as nat == max_len(rows_view(lines@)),
{
    let mut m: u64 = 0;
    let mut k: usize = 0;
    while k < lines.len()
        invariant
            k <= lines@.len(),
            m as nat == max_len(rows_view(lines@).take(k as int)),
        decreases lines@.len() - k,
    {
        assert(rows_view(lines@).take(k + 1).drop_last() =~= rows_view(lines@).take(k as int));
        if lines[k].1 > m {
            m = lines[k].1;
        }
        k = k + 1;
    }
    assert(rows_view(lines@).take(k as int) =~= rows_view(lines@));
    m
}

/// The padding after a line of visible length `len`, as `pad_spec` says.
pub fn padding(max: u64, len: u64) -> (r: u64)
    requires
        max + GUTTER <= u64::MAX,
    ensures
        r as nat == pad_spec(max as nat, len as nat),
{
    if len >= max + GUTTER {
        0
    } else {
        max + GUTTER - len
    }
}

/// The text beside logo line `i`, as `content_spec` says.
pub fn row_content(i: usize, p: &RowParts) -> (r: String)
    ensures
        r@ == content_spec(i as int, p@),
{
    if i == 0 {
        p.title_row.clone()
    } else if i == 1 {
        proof {
            reveal_strlit("-");
        }
        let n = p.title.unicode_len();
        assert(n as u64 == n);
        let dash = "-";
        assert(dash@ =~= seq!['-']);
        repeat_text(dash, n as u64)
    } else if i - 2 < p.infos.len() {
        let pair = &p.infos[i - 2];
        assert(p@.infos[i - 2] == (pair.0@, pair.1@));
        let mut r = p.secondary.clone();
        r.append(pair.0.as_str());
        r.append(p.unset.as_str());
        proof {
            reveal_strlit(": ");
        }
        let sep = ": ";
        assert(sep@ =~= seq![':', ' ']);
        r.append(sep);
        r.append(pair.1.as_str());
        assert(r@ =~= info_row(p@.infos[i - 2], p@.secondary, p@.unset));
        r
    } else if i >= 3 && i - 3 == p.infos.len() {
        p.swatch.clone()
    } else {
        String::new()
    }
}

/// Lays out the output rows, as `compose_spec` says.
pub fn compose_rows(lines: &Vec<(String, u64)>, p: &RowParts) -> (r: Vec<String>)
    requires
        max_len(rows_view(lines@)) + GUTTER <= u64::MAX,
    ensures
        r@.map_values(|s: String| s@) == compose_spec(rows_view(lines@), p@),
{
    let m = max_visible(lines);
    let mut r: Vec<String> = Vec::new();
    let mut k: usize = 0;
    while k < lines.len()
        invariant
            k <= lines@.len(),
            m as nat == max_len(rows_view(lines@)),
            m + GUTTER <= u64::MAX,
            r@.map_values(|s: String| s@) =~= compose_spec(rows_view(lines@), p@).take(k as int),
        decreases lines@.len() - k,
    {
        assert(rows_view(lines@)[k as int] == (lines@[k as int].0@, lines@[k as int].1 as nat));
        let mut row = lines[k].0.clone();
        let pad = padding(m, lines[k].1);
        proof {
            reveal_strlit(" ");
        }
        let space = " ";
        assert(space@ =~= seq![' ']);
        let spaces = repeat_text(space, pad);
        row.append(spaces.as_str());
        let content = row_content(k, p);
        row.append(content.as_str());
        assert(row@ == compose_spec(rows_view(lines@), p@)[k as int]);
        let ghost before = r@.map_values(|s: String| s@);
        r.push(row);
        assert(r@.map_values(|s: String| s@) =~= before.push(row@));
        k = k + 1;
    }
    r
}

/// The colour swatch, as `swatch_spec` says.
pub fn swatch() -> (r: String)
    ensures
        r@ == swatch_spec(),
{
    proof {
        reveal_strlit("   ");
    }
    let block = "   ";
    let mut r = prefix_text(&Style::new().on(Color::Black));
    r.append(block);
    r.append(prefix_text(&Style::new().on(Color::Red)).as_str());
    r.append(block);
    r.append(prefix_text(&Style::new().on(Color::Green)).as_str());
    r.append(block);
    r.append(prefix_text(&Style::new().on(Color::Yellow)).as_str());
    r.append(block);
    r.append(prefix_text(&Style::new().on(Color::Blue)).as_str());
    r.append(block);
    r.append(prefix_text(&Style::new().on(Color::Purple)).as_str());
    r.append(block);
    r.append(prefix_text(&Style::new().on(Color::LightBlue)).as_str());
    r.append(block);
    r.append(prefix_text(&Style::new().on(Color::White)).as_str());
    r.append(block);
    r.append(prefix_text(&get_style_unset()).as_str());
    assert(r@ =~= swatch_spec());
    r
}

/// The codes and texts that stand beside a logo drawn in `theme`.
pub open spec fn parts_spec(
    theme: Seq<Style>,
    title: Seq<char>,
    infos: Seq<(Seq<char>, Seq<char>)>,
) -> RowPartsView {
    let primary = if 0 < theme.len() { theme[0] } else { unset_style() };
    let secondary = if 1 < theme.len() { theme[1] } else { unset_style() };
    RowPartsView {
        title,
        title_row: title_spec(title, prefix_of(primary), prefix_of(unset_style())),
        infos,
        secondary: prefix_of(secondary),
        unset: prefix_of(unset_style()),
        swatch: swatch_spec(),
    }
}

/// Lays out the rendered logo `lines` beside the title and the information
/// pairs, in the styles of `theme`.
pub fn compose(lines: &Vec<(String, u64)>, theme: &Theme, title: &String, infos: Vec<(String, String)>) -> (r: Vec<String>)
    requires
        max_len(rows_view(lines@)) + GUTTER <= u64::MAX,
    ensures
        r@.map_values(|s: String| s@) == compose_spec(
            rows_view(lines@),
            parts_spec(theme@, title@, infos@.map_values(|p: (String, String)| (p.0@, p.1@))),
        ),
{
    let parts = RowParts {
        title: title.clone(),
        title_row: theme.render_title(title),
        infos,
        secondary: theme.prefix_or_unset(1),
        unset: prefix_text(&get_style_unset()),
        swatch: swatch(),
    };
    assert(parts@ == parts_spec(theme@, title@, infos@.map_values(|p: (String, String)| (p.0@, p.1@))));
    compose_rows(lines, &parts)
}

} // verus!

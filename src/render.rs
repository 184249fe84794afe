//! The template renderer: placeholder tokens become the control codes of the
//! styles they name, with the active style carried from line to line.

use vstd::prelude::*;
use crate::token::{
    index_value, split_lines, token_index, token_len, token_len_at, visible_from, visible_len,
    lines_of,
};

verus! {

/// The codes of one style: what is written before styled text, and what
/// cancels it.
pub struct StyleCodes {
    pub prefix: String,
    pub suffix: String,
}

/// A style's codes as text: (prefix, suffix).
pub type Codes = (Seq<char>, Seq<char>);

impl View for StyleCodes {
    type V = Codes;

    open spec fn view(&self) -> Codes {
        (self.prefix@, self.suffix@)
    }
}

/// A theme resolved to control codes.
pub struct Palette {
    /// The codes of each theme entry, by index.
    pub styles: Vec<StyleCodes>,
    /// The codes of the neutral style: the fallback for a missing index, and
    /// the terminator of every line.
    pub unset: StyleCodes,
    /// The codes active before the first placeholder of a template.
    pub initial: StyleCodes,
}

pub struct PaletteView {
    pub styles: Seq<Codes>,
    pub unset: Codes,
    pub initial: Codes,
}

impl View for Palette {
    type V = PaletteView;

    open spec fn view(&self) -> PaletteView {
        PaletteView {
            styles: self.styles@.map_values(|c: StyleCodes| c@),
            unset: self.unset@,
            initial: self.initial@,
        }
    }
}

/// The codes that index `n` selects: the entry, or the neutral style where
/// the palette has none.
pub open spec fn resolve(pal: PaletteView, n: nat) -> Codes {
    if n < pal.styles.len() {
        pal.styles[n as int]
    } else {
        pal.unset
    }
}

/// The text of `s` from position `i` on with each token replaced by the
/// suffix of the style active before it and the prefix of the style it names,
/// and the style active at the end.
pub open spec fn substitute(s: Seq<char>, i: int, active: Codes, pal: PaletteView) -> (
    Seq<char>,
    Codes,
)
    decreases s.len() - i,
{
    if i < 0 || i >= s.len() {
        (Seq::empty(), active)
    } else if token_len(s, i) > 0 {
        let next = resolve(pal, token_index(s, i));
        let rest = substitute(s, i + token_len(s, i), next, pal);
        (active.1 + next.0 + rest.0, rest.1)
    } else {
        let rest = substitute(s, i + 1, active, pal);
        (seq![s[i]] + rest.0, rest.1)
    }
}

/// One rendered line, from the style carried into it: the prefix of the style
/// active at its end, the substituted text, and the neutral prefix; and the
/// style carried on to the next line.
pub open spec fn render_line_spec(s: Seq<char>, carried: Codes, pal: PaletteView) -> (
    Seq<char>,
    Codes,
) {
    let (body, last) = substitute(s, 0, carried, pal);
    (last.0 + body + pal.unset.0, last)
}

/// The rendered lines from line `k` on, with their visible lengths.
pub open spec fn render_rows(
    ls: Seq<Seq<char>>,
    k: int,
    carried: Codes,
    pal: PaletteView,
) -> Seq<(Seq<char>, nat)>
    decreases ls.len() - k,
{
    if k < 0 || k >= ls.len() {
        Seq::empty()
    } else {
        let (text, last) = render_line_spec(ls[k], carried, pal);
        seq![(text, visible_len(ls[k]))] + render_rows(ls, k + 1, last, pal)
    }
}

/// The rendered lines of a whole template.
pub open spec fn render_spec(t: Seq<char>, pal: PaletteView) -> Seq<(Seq<char>, nat)> {
    render_rows(lines_of(t), 0, pal.initial, pal)
}

pub open spec fn rows_view(r: Seq<(String, u64)>) -> Seq<(Seq<char>, nat)> {
    r.map_values(|p: (String, u64)| (p.0@, p.1 as nat))
}

fn pick<'a>(pal: &'a Palette, k: usize) -> (r: &'a StyleCodes)
    ensures
        r@ == (if k < pal.styles@.len() {
            pal@.styles[k as int]
        } else {
            pal.unset@
        }),
{
    if k < pal.styles.len() {
        &pal.styles[k]
    } else {
        &pal.unset
    }
}

/// Renders one line from the style carried into it; returns the styled text,
/// the visible length and the style carried on.
pub fn render_line<'a>(line: &str, carried: &'a StyleCodes, pal: &'a Palette) -> (r: (
    String,
    usize,
    &'a StyleCodes,
))
    ensures
        r.0@ == render_line_spec(line@, carried@, pal@).0,
        r.2@ == render_line_spec(line@, carried@, pal@).1,
        r.1 as nat == visible_len(line@),
{
    let n = line.unicode_len();
    let mut out = String::new();
    let mut act: &StyleCodes = carried;
    let mut i: usize = 0;
    let mut lit: usize = 0;
    let mut vis: usize = 0;
    while i < n
        invariant
            lit <= i <= n,
            n == line@.len(),
            vis <= i,
            out@ + line@.subrange(lit as int, i as int) + substitute(line@, i as int, act@, pal@).0
                == substitute(line@, 0, carried@, pal@).0,
            substitute(line@, i as int, act@, pal@).1 == substitute(line@, 0, carried@, pal@).1,
            vis + visible_from(line@, i as int) == visible_from(line@, 0),
        decreases n - i,
    {
        let t = token_len_at(line, n, i);
        if t > 0 {
            let ghost s = line@;
            let ghost before = out@;
            out.append(line.substring_char(lit, i));
            proof {
                assert forall|m: int| i + 2 <= m < i + t - 1 implies crate::token::is_digit(
                    #[trigger] s[m],
                ) by {
                    lemma_run_digits(s, i + 2, m);
                }
            }
            let k = index_value(line, i + 2, i + t - 1, pal.styles.len());
            let next = pick(pal, k);
            assert(next@ == resolve(pal@, token_index(s, i as int)));
            out.append(act.suffix.as_str());
            out.append(next.prefix.as_str());
            assert(out@ + s.subrange((i + t) as int, (i + t) as int) + substitute(
                s,
                (i + t) as int,
                next@,
                pal@,
            ).0 =~= before + s.subrange(lit as int, i as int) + substitute(s, i as int, act@, pal@).0);
            act = next;
            i = i + t;
            lit = i;
        } else {
            assert(line@.subrange(lit as int, i as int) + substitute(line@, i as int, act@, pal@).0
                =~= line@.subrange(lit as int, i + 1) + substitute(
                line@,
                i + 1,
                act@,
                pal@,
            ).0);
            vis = vis + 1;
            i = i + 1;
        }
    }
    out.append(line.substring_char(lit, n));
    assert(out@ =~= substitute(line@, 0, carried@, pal@).0);
    let mut full = act.prefix.clone();
    full.append(out.as_str());
    full.append(pal.unset.prefix.as_str());
    (full, vis, act)
}

proof fn lemma_run_digits(s: Seq<char>, k: int, m: int)
    requires
        k <= m < k + crate::token::digit_run(s, k),
    ensures
        crate::token::is_digit(s[m]),
    decreases m - k,
{
    if m > k {
        lemma_run_digits(s, k + 1, m);
    }
}

/// Renders a template line by line with the codes of `pal`: one row per line,
/// holding the styled text and the visible length.
pub fn render_template(template: &str, pal: &Palette) -> (r: Vec<(String, u64)>)
    ensures
        rows_view(r@) == render_spec(template@, pal@),
{
    let lines = split_lines(template);
    let ghost ls = lines@.map_values(|l: String| l@);
    let mut r: Vec<(String, u64)> = Vec::new();
    let mut act: &StyleCodes = &pal.initial;
    let mut k: usize = 0;
    while k < lines.len()
        invariant
            k <= lines@.len(),
            ls == lines@.map_values(|l: String| l@),
            ls == lines_of(template@),
            rows_view(r@) + render_rows(ls, k as int, act@, pal@) == render_spec(template@, pal@),
        decreases lines@.len() - k,
    {
        let (text, vis, next) = render_line(lines[k].as_str(), act, pal);
        let ghost before = rows_view(r@);
        r.push((text, vis as u64));
        assert(rows_view(r@) =~= before.push((text@, vis as nat)));
        assert(rows_view(r@) + render_rows(ls, k + 1, next@, pal@) =~= before + render_rows(
            ls,
            k as int,
            act@,
            pal@,
        ));
        act = next;
        k = k + 1;
    }
    assert(rows_view(r@) =~= rows_view(r@) + render_rows(ls, k as int, act@, pal@));
    r
}

} // verus!

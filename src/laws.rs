//! Properties of rendering and layout, stated over the specifications of
//! `render` and `compose` and proved from them.

use vstd::prelude::*;
use crate::compose::{content_spec, max_len, pad_spec, RowPartsView, GUTTER};
use crate::render::{render_line_spec, render_spec, substitute, Codes, PaletteView};
use crate::token::{digit_run, is_digit, token_len, visible_from, visible_len};

verus! {

/// Rendering is a function of the template and the palette alone: the same
/// inputs give the same rendered lines.
pub proof fn lemma_render_deterministic(t1: Seq<char>, t2: Seq<char>, p1: PaletteView, p2: PaletteView)
    requires
        t1 == t2,
        p1 == p2,
    ensures
        render_spec(t1, p1) == render_spec(t2, p2),
{
}

/// No placeholder token starts anywhere in `a`.
pub open spec fn token_free(a: Seq<char>) -> bool {
    forall|i: int| 0 <= i < a.len() ==> #[trigger] token_len(a, i) == 0
}

/// The token `${d}`.
pub open spec fn token_text(d: Seq<char>) -> Seq<char> {
    seq!['$', '{'] + d + seq!['}']
}

pub open spec fn all_digits(d: Seq<char>) -> bool {
    d.len() > 0 && forall|k: int| 0 <= k < d.len() ==> is_digit(#[trigger] d[k])
}

proof fn lemma_digit_run_shift(x: Seq<char>, y: Seq<char>, j: int)
    requires
        0 <= j,
    ensures
        digit_run(x + y, x.len() + j) == digit_run(y, j),
    decreases y.len() - j,
{
    if j < y.len() {
        assert((x + y)[x.len() + j] == y[j]);
        lemma_digit_run_shift(x, y, j + 1);
    }
}

proof fn lemma_token_len_shift(x: Seq<char>, y: Seq<char>, j: int)
    requires
        0 <= j,
    ensures
        token_len(x + y, x.len() + j) == token_len(y, j),
{
    lemma_digit_run_shift(x, y, j + 2);
    let run = digit_run(y, j + 2);
    if j + 2 + run < y.len() {
        assert((x + y)[x.len() + j + 2 + run] == y[j + 2 + run]);
    }
    if j + 1 < y.len() {
        assert((x + y)[x.len() + j] == y[j]);
        assert((x + y)[x.len() + j + 1] == y[j + 1]);
    }
}

proof fn lemma_visible_shift(x: Seq<char>, y: Seq<char>, j: int)
    requires
        0 <= j,
    ensures
        visible_from(x + y, x.len() + j) == visible_from(y, j),
    decreases y.len() - j,
{
    if j < y.len() {
        lemma_token_len_shift(x, y, j);
        let t = token_len(y, j);
        if t > 0 {
            lemma_visible_shift(x, y, j + t);
        } else {
            lemma_visible_shift(x, y, j + 1);
        }
    }
}

proof fn lemma_digit_run_prefix(a: Seq<char>, s: Seq<char>, k: int)
    requires
        0 <= k <= a.len(),
        a.len() < s.len(),
        s.subrange(0, a.len() as int) == a,
        !is_digit(s[a.len() as int]),
    ensures
        digit_run(s, k) == digit_run(a, k),
    decreases a.len() - k,
{
    if k < a.len() {
        assert(s[k] == a[k]);
        lemma_digit_run_prefix(a, s, k + 1);
    }
}

proof fn lemma_digit_run_bound(s: Seq<char>, k: int)
    requires
        0 <= k,
    ensures
        k + digit_run(s, k) <= s.len() || digit_run(s, k) == 0,
        forall|m: int| k <= m < k + digit_run(s, k) ==> is_digit(#[trigger] s[m]),
    decreases s.len() - k,
{
    if k < s.len() && is_digit(s[k]) {
        lemma_digit_run_bound(s, k + 1);
    }
}

/// No token starts inside a token-free `a` once `${` follows it.
proof fn lemma_no_token_in_prefix(a: Seq<char>, s: Seq<char>, i: int)
    requires
        token_free(a),
        0 <= i < a.len(),
        a.len() as int + 1 < s.len(),
        s.subrange(0, a.len() as int) == a,
        s[a.len() as int] == '$',
        s[a.len() as int + 1] == '{',
    ensures
        token_len(s, i) == 0,
{
    assert(token_len(a, i) == 0);
    if i + 2 <= a.len() {
        lemma_digit_run_prefix(a, s, i + 2);
    }
    let run = digit_run(s, i + 2);
    lemma_digit_run_bound(s, i + 2);
    if i + 1 < s.len() && s[i] == '$' && s[i + 1] == '{' && run > 0 && i + 2 + run < s.len() && s[i
        + 2 + run] == '}' {
        if i + 1 == a.len() {
            assert(s[i + 1] == '$');
        } else {
            assert(s[i] == a[i]);
            assert(s[i + 1] == a[i + 1]);
            if i + 2 + run >= a.len() {
                assert(is_digit(s[a.len() as int]) || i + 2 + run == a.len());
            } else {
                assert(s[i + 2 + run] == a[i + 2 + run]);
            }
        }
    }
}

proof fn lemma_visible_prefix(a: Seq<char>, s: Seq<char>, i: int)
    requires
        token_free(a),
        0 <= i <= a.len(),
        a.len() as int + 1 < s.len(),
        s.subrange(0, a.len() as int) == a,
        s[a.len() as int] == '$',
        s[a.len() as int + 1] == '{',
    ensures
        visible_from(s, i) == (a.len() - i) + visible_from(s, a.len() as int),
    decreases a.len() - i,
{
    if i < a.len() {
        lemma_no_token_in_prefix(a, s, i);
        lemma_visible_prefix(a, s, i + 1);
    }
}

/// A token-free line is all visible.
pub proof fn lemma_visible_len_token_free(a: Seq<char>)
    requires
        token_free(a),
    ensures
        visible_len(a) == a.len(),
{
    lemma_visible_all(a, 0);
}

proof fn lemma_visible_all(a: Seq<char>, i: int)
    requires
        token_free(a),
        0 <= i <= a.len(),
    ensures
        visible_from(a, i) == a.len() - i,
    decreases a.len() - i,
{
    if i < a.len() {
        assert(token_len(a, i) == 0);
        lemma_visible_all(a, i + 1);
    }
}

/// A placeholder adds nothing to the visible length, whatever index it names:
/// a line made of a token-free text, a token and any rest is as long as the
/// text and the rest's visible length together. By induction over the rest,
/// a line of text segments and any number of tokens is as long as its
/// segments.
pub proof fn lemma_visible_len_token(a: Seq<char>, d: Seq<char>, rest: Seq<char>)
    requires
        token_free(a),
        all_digits(d),
    ensures
        visible_len(a + token_text(d) + rest) == a.len() as int + visible_len(rest),
{
    let tok = token_text(d);
    let s = a + tok + rest;
    assert(s =~= a + (tok + rest));
    assert(s.subrange(0, a.len() as int) =~= a);
    assert(s[a.len() as int] == '$');
    assert(s[a.len() as int + 1] == '{');
    lemma_visible_prefix(a, s, 0);
    // the token at the end of `a`
    let x = a + seq!['$', '{'];
    let y = d + seq!['}'] + rest;
    assert(s =~= x + y);
    lemma_digit_run_shift(x, y, 0);
    lemma_digits_then_close(d, rest, 0);
    assert(digit_run(s, a.len() as int + 2) == d.len());
    assert(s[a.len() as int + 2 + d.len()] == '}');
    assert(token_len(s, a.len() as int) == d.len() + 3);
    let z = a + tok;
    assert(s =~= z + rest);
    lemma_visible_shift(z, rest, 0);
}

proof fn lemma_digits_then_close(d: Seq<char>, rest: Seq<char>, k: int)
    requires
        all_digits(d),
        0 <= k <= d.len(),
    ensures
        digit_run(d + seq!['}'] + rest, k) == d.len() - k,
    decreases d.len() - k,
{
    let y = d + seq!['}'] + rest;
    if k < d.len() {
        assert(y[k] == d[k]);
        lemma_digits_then_close(d, rest, k + 1);
    } else {
        assert(y[k] == '}');
    }
}

/// The padding width is the true maximum of the visible lengths, and no row
/// needs clamping: each is padded by exactly `max + GUTTER - len`, at least
/// `GUTTER` columns.
pub proof fn lemma_padding_exact(rows: Seq<(Seq<char>, nat)>)
    ensures
        forall|k: int| 0 <= k < rows.len() ==> rows[k].1 <= max_len(rows),
        rows.len() > 0 ==> exists|k: int| 0 <= k < rows.len() && rows[k].1 == max_len(rows),
        rows.len() == 0 ==> max_len(rows) == 0,
        forall|k: int|
            0 <= k < rows.len() ==> pad_spec(max_len(rows), #[trigger] rows[k].1) == max_len(rows)
                + GUTTER - rows[k].1 && pad_spec(max_len(rows), rows[k].1) >= GUTTER,
    decreases rows.len(),
{
    if rows.len() > 0 {
        let init = rows.drop_last();
        lemma_padding_exact(init);
        assert forall|k: int| 0 <= k < rows.len() implies rows[k].1 <= max_len(rows) by {
            if k < init.len() {
                assert(rows[k] == init[k]);
            }
        }
        if rows.last().1 <= max_len(init) && init.len() > 0 {
            let k0 = choose|k: int| 0 <= k < init.len() && init[k].1 == max_len(init);
            assert(rows[k0] == init[k0]);
        } else {
            assert(rows[rows.len() - 1].1 == max_len(rows));
        }
    }
}

proof fn lemma_substitute_token_free(s: Seq<char>, i: int, active: Codes, pal: PaletteView)
    requires
        token_free(s),
        0 <= i <= s.len(),
    ensures
        substitute(s, i, active, pal) == (s.subrange(i, s.len() as int), active),
    decreases s.len() - i,
{
    if i < s.len() {
        assert(token_len(s, i) == 0);
        lemma_substitute_token_free(s, i + 1, active, pal);
        assert(seq![s[i]] + s.subrange(i + 1, s.len() as int) =~= s.subrange(i, s.len() as int));
    }
}

/// A line without placeholders is drawn wholly in the style carried into it:
/// its text starts with that style's prefix, and the style carries on.
pub proof fn lemma_carry_over(s: Seq<char>, carried: Codes, pal: PaletteView)
    requires
        token_free(s),
    ensures
        render_line_spec(s, carried, pal) == (carried.0 + s + pal.unset.0, carried),
{
    lemma_substitute_token_free(s, 0, carried, pal);
    assert(s.subrange(0, s.len() as int) =~= s);
}

/// With no information pairs, only the title row and its underline carry
/// text before the swatch row; every other row is empty.
pub proof fn lemma_empty_infos(p: RowPartsView, i: int)
    requires
        p.infos.len() == 0,
        i >= 2,
        i != 3,
    ensures
        content_spec(i, p) == Seq::<char>::empty(),
{
}

} // verus!

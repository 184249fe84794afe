//! The template grammar: lines, and placeholder tokens `${N}` with `N` one or
//! more decimal digits.

use vstd::prelude::*;

verus! {

pub open spec fn is_digit(c: char) -> bool {
    '0' <= c && c <= '9'
}

/// The number of consecutive decimal digits of `s` from position `k` on.
pub open spec fn digit_run(s: Seq<char>, k: int) -> nat
    decreases s.len() - k,
{
    if 0 <= k < s.len() && is_digit(s[k]) {
        1 + digit_run(s, k + 1)
    } else {
        0
    }
}

/// The length of the placeholder token that starts at position `i` of `s`,
/// or zero where none starts there.
pub open spec fn token_len(s: Seq<char>, i: int) -> nat {
    let run = digit_run(s, i + 2);
    if 0 <= i && i + 1 < s.len() && s[i] == '$' && s[i + 1] == '{' && run > 0 && i + 2 + run
        < s.len() && s[i + 2 + run] == '}' {
        run + 3
    } else {
        0
    }
}

pub open spec fn digit_value(c: char) -> nat {
    (c as u32 - '0' as u32) as nat
}

/// The number that the decimal digits `s[lo..hi]` write.
pub open spec fn digits_value(s: Seq<char>, lo: int, hi: int) -> nat
    decreases hi - lo,
{
    if hi <= lo {
        0
    } else {
        digits_value(s, lo, hi - 1) * 10 + digit_value(s[hi - 1])
    }
}

/// The index that the token starting at `i` names.
pub open spec fn token_index(s: Seq<char>, i: int) -> nat {
    digits_value(s, i + 2, i + token_len(s, i) - 1)
}

/// The number of characters of `s` from position `i` on that lie outside
/// every placeholder token.
pub open spec fn visible_from(s: Seq<char>, i: int) -> nat
    decreases s.len() - i,
{
    if i < 0 || i >= s.len() {
        0
    } else if token_len(s, i) > 0 {
        visible_from(s, i + token_len(s, i))
    } else {
        1 + visible_from(s, i + 1)
    }
}

/// The visible length of a template line: its characters outside tokens.
pub open spec fn visible_len(s: Seq<char>) -> nat {
    visible_from(s, 0)
}

/// The first position at or after `i` that holds `c`, or the length.
pub open spec fn next_of(t: Seq<char>, c: char, i: int) -> int
    decreases t.len() - i,
{
    if i < 0 || i >= t.len() {
        t.len() as int
    } else if t[i] == c {
        i
    } else {
        next_of(t, c, i + 1)
    }
}

/// The first position at or after `i` that holds a line feed, or the length.
pub open spec fn next_newline(t: Seq<char>, i: int) -> int {
    next_of(t, '\n', i)
}

/// The first position at or after `from` that holds `c`, or the length.
pub fn find_char(t: &str, n: usize, c: char, from: usize) -> (r: usize)
    requires
        n == t@.len(),
        from <= n,
    ensures
        r as int == next_of(t@, c, from as int),
        from <= r <= n,
{
    let mut i = from;
    while i < n && t.get_char(i) != c
        invariant
            from <= i <= n,
            n == t@.len(),
            next_of(t@, c, i as int) == next_of(t@, c, from as int),
        decreases n - i,
    {
        i = i + 1;
    }
    i
}

/// A line without the carriage return that ended it, if any.
pub open spec fn strip_cr(l: Seq<char>) -> Seq<char> {
    if l.len() > 0 && l.last() == '\r' {
        l.drop_last()
    } else {
        l
    }
}

/// The lines of `t` from position `start` on: split at line feeds, each
/// without its line ending (a line feed, or a carriage return and a line
/// feed); a final line ending opens no further line.
pub open spec fn lines_from(t: Seq<char>, start: int) -> Seq<Seq<char>>
    decreases t.len() + 1 - start,
    via lines_from_decreases
{
    if start < 0 || start >= t.len() {
        Seq::empty()
    } else {
        let e = next_newline(t, start);
        let l = t.subrange(start, e);
        seq![if e < t.len() { strip_cr(l) } else { l }] + lines_from(t, e + 1)
    }
}

#[via_fn]
proof fn lines_from_decreases(t: Seq<char>, start: int) {
    if 0 <= start < t.len() {
        lemma_next_newline_bounds(t, start);
    }
}

pub proof fn lemma_next_newline_bounds(t: Seq<char>, i: int)
    requires
        0 <= i <= t.len(),
    ensures
        i <= next_of(t, '\n', i) <= t.len(),
    decreases t.len() - i,
{
    if i < t.len() && t[i] != '\n' {
        lemma_next_newline_bounds(t, i + 1);
    }
}

pub open spec fn lines_of(t: Seq<char>) -> Seq<Seq<char>> {
    lines_from(t, 0)
}

proof fn lemma_next_newline(t: Seq<char>, start: int, i: int)
    requires
        0 <= start <= i <= t.len(),
        forall|k: int| start <= k < i ==> t[k] != '\n',
        i == t.len() || t[i] == '\n',
    ensures
        next_newline(t, start) == i,
        next_of(t, '\n', start) == i,
    decreases i - start,
{
    if start < i {
        lemma_next_newline(t, start + 1, i);
    }
}

/// The length of the token of `s` at `i`, as `token_len` defines it.
pub fn token_len_at(s: &str, n: usize, i: usize) -> (r: usize)
    requires
        n == s@.len(),
        i < n,
    ensures
        r == token_len(s@, i as int),
{
    if i + 1 >= n || s.get_char(i) != '$' || s.get_char(i + 1) != '{' {
        return 0;
    }
    let mut j: usize = i + 2;
    while j < n && is_digit_char(s.get_char(j))
        invariant
            i + 2 <= j <= n,
            n == s@.len(),
            digit_run(s@, i + 2) == (j - (i + 2)) + digit_run(s@, j as int),
        decreases n - j,
    {
        j = j + 1;
    }
    if j > i + 2 && j < n && s.get_char(j) == '}' {
        j + 1 - i
    } else {
        0
    }
}

fn is_digit_char(c: char) -> (r: bool)
    ensures
        r == is_digit(c),
{
    '0' <= c && c <= '9'
}

/// The number that the digits `s[lo..hi]` write, or `cap` where it is larger.
pub fn index_value(s: &str, lo: usize, hi: usize, cap: usize) -> (r: usize)
    requires
        lo <= hi <= s@.len(),
        forall|k: int| lo <= k < hi ==> is_digit(#[trigger] s@[k]),
    ensures
        r as nat == if digits_value(s@, lo as int, hi as int) < cap {
            digits_value(s@, lo as int, hi as int)
        } else {
            cap as nat
        },
{
    let mut v: usize = 0;
    let mut k: usize = lo;
    while k < hi
        invariant
            lo <= k <= hi <= s@.len(),
            forall|m: int| lo <= m < hi ==> is_digit(#[trigger] s@[m]),
            v as nat == if digits_value(s@, lo as int, k as int) < cap {
                digits_value(s@, lo as int, k as int)
            } else {
                cap as nat
            },
        decreases hi - k,
    {
        let c = s.get_char(k);
        assert(is_digit(s@[k as int]));
        let d: usize = (c as u32 - '0' as u32) as usize;
        let ghost x = digits_value(s@, lo as int, k as int);
        let ghost y = digits_value(s@, lo as int, k as int + 1);
        assert(y == x * 10 + d);
        if v < cap {
            if v > cap / 10 {
                assert(x * 10 + d >= cap) by (nonlinear_arith)
                    requires
                        x == v,
                        v > cap / 10,
                ;
                v = cap;
            } else {
                assert(x * 10 <= cap) by (nonlinear_arith)
                    requires
                        x == v,
                        v <= cap / 10,
                ;
                let w = v * 10;
                if d >= cap - w {
                    v = cap;
                } else {
                    v = w + d;
                }
            }
        } else {
            assert(x * 10 + d >= cap) by (nonlinear_arith)
                requires
                    x >= cap,
            ;
        }
        k = k + 1;
    }
    v
}

/// Splits a template into its lines, as `lines_of` defines them.
pub fn split_lines(t: &str) -> (r: Vec<String>)
    ensures
        r@.map_values(|l: String| l@) == lines_of(t@),
{
    let n = t.unicode_len();
    let mut r: Vec<String> = Vec::new();
    let mut start: usize = 0;
    let mut i: usize = 0;
    while i < n
        invariant
            start <= i <= n,
            n == t@.len(),
            forall|k: int| start <= k < i ==> t@[k] != '\n',
            r@.map_values(|l: String| l@) + lines_from(t@, start as int) == lines_of(t@),
        decreases n - i,
    {
        if t.get_char(i) == '\n' {
            proof {
                lemma_next_newline(t@, start as int, i as int);
            }
            let end = if i > start && t.get_char(i - 1) == '\r' {
                i - 1
            } else {
                i
            };
            let line = t.substring_char(start, end).to_owned();
            assert(line@ == strip_cr(t@.subrange(start as int, i as int)));
            let ghost before = r@.map_values(|l: String| l@);
            r.push(line);
            assert(r@.map_values(|l: String| l@) == before.push(line@));
            assert(r@.map_values(|l: String| l@) + lines_from(t@, i + 1) =~= before + lines_from(
                t@,
                start as int,
            ));
            start = i + 1;
        }
        i = i + 1;
    }
    if start < n {
        proof {
            lemma_next_newline(t@, start as int, n as int);
        }
        let line = t.substring_char(start, n).to_owned();
        let ghost before = r@.map_values(|l: String| l@);
        r.push(line);
        assert(r@.map_values(|l: String| l@) == before.push(line@));
        assert(lines_from(t@, n + 1) == Seq::<Seq<char>>::empty());
        assert(r@.map_values(|l: String| l@) =~= before + lines_from(t@, start as int));
    } else {
        assert(r@.map_values(|l: String| l@) =~= r@.map_values(|l: String| l@) + lines_from(
            t@,
            start as int,
        ));
    }
    r
}

} // verus!

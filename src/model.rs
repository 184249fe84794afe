//! The machine model name: vendor filler removed, virtual machines marked.

use vstd::prelude::*;
use crate::token::{lemma_next_newline_bounds, lines_of, next_of, split_lines};

verus! {

/// `s` with every occurrence of a non-empty `from`, found left to right
/// without overlap, replaced by `to`.
pub open spec fn replace_all(s: Seq<char>, from: Seq<char>, to: Seq<char>) -> Seq<char>
    decreases s.len(),
{
    if from.len() == 0 || s.len() < from.len() {
        s
    } else if s.take(from.len() as int) == from {
        to + replace_all(s.skip(from.len() as int), from, to)
    } else {
        seq![s[0]] + replace_all(s.skip(1), from, to)
    }
}

/// `s` with each occurrence of a non-empty `lit`, found left to right, removed
/// together with the rest of its line (the line feed stays).
pub open spec fn erase_tails(s: Seq<char>, lit: Seq<char>) -> Seq<char>
    decreases s.len(),
    via erase_tails_decreases
{
    if lit.len() == 0 || s.len() < lit.len() {
        s
    } else if s.take(lit.len() as int) == lit {
        erase_tails(s.skip(next_of(s, '\n', lit.len() as int)), lit)
    } else {
        seq![s[0]] + erase_tails(s.skip(1), lit)
    }
}

#[via_fn]
proof fn erase_tails_decreases(s: Seq<char>, lit: Seq<char>) {
    if lit.len() > 0 && s.len() >= lit.len() {
        lemma_next_newline_bounds(s, lit.len() as int);
    }
}

/// `pat` occurs in `s`.
pub open spec fn contains(s: Seq<char>, pat: Seq<char>) -> bool {
    exists|i: int| 0 <= i && i + pat.len() <= s.len() && #[trigger] s.subrange(i, i + pat.len()) == pat
}

/// Relies on `str::replace`: every match of `from`, left to right and without
/// overlap, becomes `to`.
#[verifier::external_body]
fn replace_text(s: &str, from: &str, to: &str) -> (r: String)
    requires
        from@.len() > 0,
    ensures
        r@ == replace_all(s@, from@, to@),
{
    s.replace(from, to)
}

/// Relies on `regex::Regex::replace_all` with the pattern `lit` (escaped by
/// `regex::escape`) followed by `.*`, which runs to the end of the line: each
/// match, leftmost first, is removed.
#[verifier::external_body]
fn erase_line_tails(s: &str, lit: &str) -> (r: String)
    requires
        0 < lit@.len() <= 64,
    ensures
        r@ == erase_tails(s@, lit@),
{
    let re = regex::Regex::new(&format!("{}.*", regex::escape(lit))).unwrap();
    re.replace_all(s, "").into_owned()
}

/// Relies on `regex::Regex::is_match` with the pattern `lit` escaped by
/// `regex::escape`: whether `lit` occurs in `s`.
#[verifier::external_body]
fn regex_finds(s: &str, lit: &str) -> (r: bool)
    requires
        0 < lit@.len() <= 64,
    ensures
        r == contains(s@, lit@),
{
    regex::Regex::new(&regex::escape(lit)).unwrap().is_match(s)
}

/// Relies on `str::contains` with a string pattern: whether `pat` occurs in `s`.
#[verifier::external_body]
fn text_contains(s: &str, pat: &str) -> (r: bool)
    ensures
        r == contains(s@, pat@),
{
    s.contains(pat)
}

/// The filler that vendors leave in model fields, removed in this order.
pub open spec fn filler() -> Seq<Seq<char>> {
    seq![
        "Not Applicable"@,
        "System Product Name"@,
        "System Version"@,
        "Undefined"@,
        "Default string"@,
        "Not Specified"@,
        "Type1ProductConfigId"@,
        "INVALID"@,
        "All Series"@,
        "\u{fffd}"@,
    ]
}

/// `s` with each of `pats`, in order, removed everywhere.
pub open spec fn remove_each(s: Seq<char>, pats: Seq<Seq<char>>) -> Seq<char>
    decreases pats.len(),
{
    if pats.len() == 0 {
        s
    } else {
        replace_all(remove_each(s, pats.drop_last()), pats.last(), Seq::empty())
    }
}

/// `s` in `pre` and a closing parenthesis, where `s` holds `mark`.
pub open spec fn mark_if(s: Seq<char>, mark: Seq<char>, pre: Seq<char>) -> Seq<char> {
    if contains(s, mark) {
        pre + s + ")"@
    } else {
        s
    }
}

/// The cleaned model name: the OEM placeholder text removed, every
/// `To Be Filled…` and `OEM…` to the end of its line removed, the filler
/// removed, then QEMU and OpenBSD virtual machines marked.
pub open spec fn clean_model_spec(s: Seq<char>) -> Seq<char> {
    let s1 = replace_all(s, "To be filled by O.E.M."@, Seq::empty());
    let s2 = erase_tails(s1, "To Be Filled"@);
    let s3 = erase_tails(s2, "OEM"@);
    let s4 = remove_each(s3, filler());
    let s5 = mark_if(s4, "Standard PC"@, "KVM/QEMU ($"@);
    mark_if(s5, "OpenBSD"@, "vmm ($"@)
}

fn mark(s: String, found: bool, pre: &str) -> (r: String)
    ensures
        r@ == if found { pre@ + s@ + ")"@ } else { s@ },
{
    if found {
        let mut r = pre.to_owned();
        r.append(s.as_str());
        r.append(")");
        r
    } else {
        s
    }
}

/// Cleans a model name, as `clean_model_spec` says.
pub fn clean_model(s: &str) -> (r: String)
    ensures
        r@ == clean_model_spec(s@),
{
    proof {
        reveal_strlit("To be filled by O.E.M.");
        reveal_strlit("To Be Filled");
        reveal_strlit("OEM");
        reveal_strlit("Not Applicable");
        reveal_strlit("System Product Name");
        reveal_strlit("System Version");
        reveal_strlit("Undefined");
        reveal_strlit("Default string");
        reveal_strlit("Not Specified");
        reveal_strlit("Type1ProductConfigId");
        reveal_strlit("INVALID");
        reveal_strlit("All Series");
        reveal_strlit("\u{fffd}");
        reveal_strlit("OpenBSD");
        reveal_strlit("");
    }
    assert(""@ =~= Seq::<char>::empty());
    let s1 = replace_text(s, "To be filled by O.E.M.", "");
    let s2 = erase_line_tails(s1.as_str(), "To Be Filled");
    let s3 = erase_line_tails(s2.as_str(), "OEM");
    let pats: [&str; 10] = [
        "Not Applicable",
        "System Product Name",
        "System Version",
        "Undefined",
        "Default string",
        "Not Specified",
        "Type1ProductConfigId",
        "INVALID",
        "All Series",
        "\u{fffd}",
    ];
    assert(pats@.map_values(|p: &str| p@) =~= filler());
    let mut cur = s3;
    let mut k: usize = 0;
    while k < 10
        invariant
            k <= 10,
            pats@.map_values(|p: &str| p@) == filler(),
            cur@ == remove_each(s3@, filler().take(k as int)),
            forall|j: int| 0 <= j < 10 ==> (#[trigger] filler()[j]).len() > 0,
        decreases 10 - k,
    {
        assert(pats@[k as int]@ == filler()[k as int]);
        assert(filler().take(k + 1).drop_last() =~= filler().take(k as int));
        assert(filler().take(k + 1).last() == filler()[k as int]);
        proof {
            reveal_strlit("");
        }
        assert(""@ =~= Seq::<char>::empty());
        cur = replace_text(cur.as_str(), pats[k], "");
        k = k + 1;
    }
    assert(filler().take(10) =~= filler());
    let qemu = text_contains(cur.as_str(), "Standard PC");
    let s5 = mark(cur, qemu, "KVM/QEMU ($");
    let bsd = regex_finds(s5.as_str(), "OpenBSD");
    mark(s5, bsd, "vmm ($")
}

/// The model in the output of a `wmic` query: its second line, with tabs
/// turned into spaces; nothing where there is no second line.
pub fn wmic_model(out: &str) -> (r: Option<String>)
    ensures
        r is Some <==> lines_of(out@).len() >= 2,
        r is Some ==> r->0@ == replace_all(lines_of(out@)[1], "\t"@, " "@),
{
    let lines = split_lines(out);
    if lines.len() < 2 {
        return None;
    }
    proof {
        reveal_strlit("\t");
    }
    assert(lines@[1]@ == lines_of(out@)[1]);
    Some(replace_text(lines[1].as_str(), "\t", " "))
}

/// The first position at or after `i` where `pat` starts in `s`, or -1.
pub open spec fn find_from(s: Seq<char>, pat: Seq<char>, i: int) -> int
    decreases s.len() + 1 - i,
{
    if i < 0 || i + pat.len() > s.len() {
        -1
    } else if s.subrange(i, i + pat.len()) == pat {
        i
    } else {
        find_from(s, pat, i + 1)
    }
}

/// The first position at or after `i` that is not a space.
pub open spec fn skip_spaces(s: Seq<char>, i: int) -> int
    decreases s.len() - i,
{
    if i < 0 || i >= s.len() || s[i] != ' ' {
        i
    } else {
        skip_spaces(s, i + 1)
    }
}

/// `s` without its first occurrence of `lit` and the spaces that follow it.
pub open spec fn erase_first(s: Seq<char>, lit: Seq<char>) -> Seq<char> {
    let p = find_from(s, lit, 0);
    if p < 0 {
        s
    } else {
        s.take(p) + s.skip(skip_spaces(s, p + lit.len()))
    }
}

/// What `str::trim` leaves of `s`.
pub uninterp spec fn trim_of(s: Seq<char>) -> Seq<char>;

/// Relies on `regex::Regex::replace` with the pattern `lit` (escaped by
/// `regex::escape`) followed by ` *`: the leftmost match is removed.
#[verifier::external_body]
fn erase_first_match(s: &str, lit: &str) -> (r: String)
    requires
        0 < lit@.len() <= 64,
    ensures
        r@ == erase_first(s@, lit@),
{
    let re = regex::Regex::new(&format!("{} *", regex::escape(lit))).unwrap();
    re.replace(s, "").into_owned()
}

/// Relies on `str::trim`: leading and trailing white space removed; the
/// result depends on the text alone.
#[verifier::external_body]
fn trim_text(s: &str) -> (r: String)
    ensures
        r@ == trim_of(s@),
{
    s.trim().to_owned()
}

/// The model that FreeMiNT reports, without its machine-type tag ` _MCH`
/// and the spaces after it, then trimmed.
pub fn freemint_model(s: &str) -> (r: String)
    ensures
        r@ == trim_of(erase_first(s@, " _MCH"@)),
{
    proof {
        reveal_strlit(" _MCH");
    }
    let stripped = erase_first_match(s, " _MCH");
    trim_text(stripped.as_str())
}

} // verus!

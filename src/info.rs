//! The summary beside the logo: the title and the ordered information pairs,
//! assembled from facts that the host reports.

use vstd::prelude::*;

verus! {

pub open spec fn digit_char(d: nat) -> char {
    if d == 0 { '0' }
    else if d == 1 { '1' }
    else if d == 2 { '2' }
    else if d == 3 { '3' }
    else if d == 4 { '4' }
    else if d == 5 { '5' }
    else if d == 6 { '6' }
    else if d == 7 { '7' }
    else if d == 8 { '8' }
    else { '9' }
}

/// The decimal digits of `n`, without leading zeros.
pub open spec fn decimal(n: nat) -> Seq<char>
    decreases n,
{
    if n < 10 {
        seq![digit_char(n)]
    } else {
        decimal(n / 10) + seq![digit_char(n % 10)]
    }
}

/// Relies on the `Display` of `u64` (through `to_string`): its decimal digits.
#[verifier::external_body]
fn decimal_text(n: u64) -> (r: String)
    ensures
        r@ == decimal(n as nat),
{
    n.to_string()
}

/// The title `user@host`.
pub fn make_title(user: &str, host: &str) -> (r: String)
    ensures
        r@ == user@ + seq!['@'] + host@,
{
    let mut r = user.to_owned();
    proof {
        reveal_strlit("@");
    }
    r.append("@");
    r.append(host);
    assert(r@ =~= user@ + seq!['@'] + host@);
    r
}

pub type InfoView = Seq<(Seq<char>, Seq<char>)>;

pub open spec fn infos_view(v: Seq<(String, String)>) -> InfoView {
    v.map_values(|p: (String, String)| (p.0@, p.1@))
}

pub open spec fn names_view(v: Seq<String>) -> Seq<Seq<char>> {
    v.map_values(|s: String| s@)
}

pub open spec fn all_same(names: Seq<Seq<char>>) -> bool {
    forall|i: int| 0 <= i < names.len() ==> #[trigger] names[i] == names[0]
}

/// The processor rows: one `CPU` row for a single processor, or for several
/// of one name (`name * count`); otherwise one `CPU-i/count` row each.
pub open spec fn cpu_rows(names: Seq<Seq<char>>) -> InfoView {
    let n = names.len();
    if n == 0 {
        Seq::empty()
    } else if n == 1 {
        seq![(seq!['C', 'P', 'U'], names[0])]
    } else if all_same(names) {
        seq![(seq!['C', 'P', 'U'], names[0] + seq![' ', '*', ' '] + decimal(n))]
    } else {
        Seq::new(
            n,
            |i: int| (seq!['C', 'P', 'U', '-'] + decimal(i as nat) + seq!['/'] + decimal(n), names[i]),
        )
    }
}

/// The graphics rows: one `GPU` row for a single adapter, otherwise one
/// `GPU-i` row each.
pub open spec fn gpu_rows(names: Seq<Seq<char>>) -> InfoView {
    if names.len() == 1 {
        seq![(seq!['G', 'P', 'U'], names[0])]
    } else {
        Seq::new(names.len(), |i: int| (seq!['G', 'P', 'U', '-'] + decimal(i as nat), names[i]))
    }
}

/// The processor rows for `names`, as `cpu_rows` says.
pub fn cpu_infos(names: &Vec<String>) -> (r: Vec<(String, String)>)
    ensures
        infos_view(r@) == cpu_rows(names_view(names@)),
{
    let ghost ns = names_view(names@);
    let n = names.len();
    let mut r: Vec<(String, String)> = Vec::new();
    proof {
        reveal_strlit("CPU");
    }
    let cpu = "CPU";
    assert(cpu@ =~= seq!['C', 'P', 'U']);
    if n == 0 {
        assert(infos_view(r@) =~= cpu_rows(ns));
        return r;
    }
    if n == 1 {
        r.push((cpu.to_owned(), names[0].clone()));
        assert(r@[0].1@ == ns[0]);
        assert(infos_view(r@) =~= cpu_rows(ns));
        return r;
    }
    let mut same = true;
    let mut k: usize = 0;
    while k < n
        invariant
            k <= n == names@.len(),
            ns == names_view(names@),
            same == forall|i: int| 0 <= i < k ==> #[trigger] ns[i] == ns[0],
        decreases n - k,
    {
        assert(ns[k as int] == names@[k as int]@ && ns[0] == names@[0]@);
        if names[k] != names[0] {
            same = false;
        }
        k = k + 1;
    }
    if same {
        let mut v = names[0].clone();
        proof {
            reveal_strlit(" * ");
        }
        let star = " * ";
        assert(star@ =~= seq![' ', '*', ' ']);
        v.append(star);
        assert(n as u64 == n);
        v.append(decimal_text(n as u64).as_str());
        r.push((cpu.to_owned(), v));
        assert(ns[0] == names@[0]@);
        assert(infos_view(r@) =~= cpu_rows(ns));
        return r;
    }
    let mut i: usize = 0;
    while i < n
        invariant
            i <= n == names@.len(),
            ns == names_view(names@),
            !all_same(ns),
            n > 1,
            infos_view(r@) =~= cpu_rows(ns).take(i as int),
        decreases n - i,
    {
        proof {
            reveal_strlit("CPU-");
            reveal_strlit("/");
        }
        let head = "CPU-";
        let slash = "/";
        assert(head@ =~= seq!['C', 'P', 'U', '-']);
        assert(slash@ =~= seq!['/']);
        let mut label = head.to_owned();
        assert(i as u64 == i);
        label.append(decimal_text(i as u64).as_str());
        label.append(slash);
        label.append(decimal_text(n as u64).as_str());
        let ghost before = infos_view(r@);
        assert(ns[i as int] == names@[i as int]@);
        r.push((label, names[i].clone()));
        assert(infos_view(r@) =~= before.push((label@, ns[i as int])));
        i = i + 1;
    }
    r
}

/// The graphics rows for `names`, as `gpu_rows` says.
pub fn gpu_infos(names: &Vec<String>) -> (r: Vec<(String, String)>)
    ensures
        infos_view(r@) == gpu_rows(names_view(names@)),
{
    let ghost ns = names_view(names@);
    let n = names.len();
    let mut r: Vec<(String, String)> = Vec::new();
    if n == 1 {
        proof {
            reveal_strlit("GPU");
        }
        let gpu = "GPU";
        assert(gpu@ =~= seq!['G', 'P', 'U']);
        r.push((gpu.to_owned(), names[0].clone()));
        assert(r@[0].1@ == ns[0]);
        assert(infos_view(r@) =~= gpu_rows(ns));
        return r;
    }
    let mut i: usize = 0;
    while i < n
        invariant
            i <= n == names@.len(),
            ns == names_view(names@),
            n != 1,
            infos_view(r@) =~= gpu_rows(ns).take(i as int),
        decreases n - i,
    {
        proof {
            reveal_strlit("GPU-");
        }
        let head = "GPU-";
        assert(head@ =~= seq!['G', 'P', 'U', '-']);
        let mut label = head.to_owned();
        assert(i as u64 == i);
        label.append(decimal_text(i as u64).as_str());
        let ghost before = infos_view(r@);
        assert(ns[i as int] == names@[i as int]@);
        r.push((label, names[i].clone()));
        assert(infos_view(r@) =~= before.push((label@, ns[i as int])));
        i = i + 1;
    }
    r
}

/// What the host reports, each fact absent where it could not be had.
pub struct SystemFacts {
    pub os: Option<String>,
    pub model: Option<String>,
    pub host: Option<String>,
    pub kernel: Option<String>,
    pub uptime: u64,
    pub arch: Option<String>,
    pub shell: String,
    pub cpus: Vec<String>,
    pub gpus: Vec<String>,
}

/// One row for a fact that is present, none for one that is absent.
pub open spec fn opt_row(label: Seq<char>, v: Option<String>) -> InfoView {
    match v {
        Some(x) => seq![(label, x@)],
        None => Seq::empty(),
    }
}

/// The information pairs, in order: OS, Model, Host, Kernel, Uptime (in
/// seconds), Arch, Shell, then the processor and graphics rows.
pub open spec fn infos_spec(f: SystemFacts) -> InfoView {
    opt_row("OS"@, f.os) + opt_row("Model"@, f.model) + opt_row("Host"@, f.host) + opt_row(
        "Kernel"@,
        f.kernel,
    ) + seq![("Uptime"@, decimal(f.uptime as nat))] + opt_row("Arch"@, f.arch) + seq![
        ("Shell"@, f.shell@),
    ] + cpu_rows(names_view(f.cpus@)) + gpu_rows(names_view(f.gpus@))
}

fn push_opt(r: &mut Vec<(String, String)>, label: &str, v: &Option<String>)
    ensures
        infos_view(final(r)@) == infos_view(old(r)@) + opt_row(label@, *v),
{
    let ghost before = infos_view(r@);
    match v {
        Some(x) => {
            r.push((label.to_owned(), x.clone()));
            assert(infos_view(r@) =~= before + opt_row(label@, *v));
        },
        None => {
            assert(infos_view(r@) =~= before + opt_row(label@, *v));
        },
    }
}

fn push_row(r: &mut Vec<(String, String)>, label: &str, v: String)
    ensures
        infos_view(final(r)@) == infos_view(old(r)@).push((label@, v@)),
{
    let ghost before = infos_view(r@);
    r.push((label.to_owned(), v));
    assert(infos_view(r@) =~= before.push((label@, v@)));
}

fn append_rows(r: &mut Vec<(String, String)>, more: Vec<(String, String)>)
    ensures
        infos_view(final(r)@) == infos_view(old(r)@) + infos_view(more@),
{
    let ghost before = infos_view(r@);
    let ghost added = infos_view(more@);
    let mut more = more;
    r.append(&mut more);
    assert(infos_view(r@) =~= before + added);
}

/// The information pairs for `f`, as `infos_spec` says.
pub fn infos_of(f: &SystemFacts) -> (r: Vec<(String, String)>)
    ensures
        infos_view(r@) == infos_spec(*f),
{
    let mut r: Vec<(String, String)> = Vec::new();
    push_opt(&mut r, "OS", &f.os);
    push_opt(&mut r, "Model", &f.model);
    push_opt(&mut r, "Host", &f.host);
    push_opt(&mut r, "Kernel", &f.kernel);
    push_row(&mut r, "Uptime", decimal_text(f.uptime));
    push_opt(&mut r, "Arch", &f.arch);
    push_row(&mut r, "Shell", f.shell.clone());
    append_rows(&mut r, cpu_infos(&f.cpus));
    append_rows(&mut r, gpu_infos(&f.gpus));
    assert(infos_view(r@) =~= infos_spec(*f));
    r
}

} // verus!

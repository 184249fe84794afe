use logofetch::info::{cpu_infos, gpu_infos, infos_of, make_title, SystemFacts};
use logofetch::model::{clean_model, freemint_model, wmic_model};

fn pairs(v: &[(&str, &str)]) -> Vec<(String, String)> {
    v.iter().map(|(a, b)| (a.to_string(), b.to_string())).collect()
}

fn names(v: &[&str]) -> Vec<String> {
    v.iter().map(|s| s.to_string()).collect()
}

#[test]
fn title_joins_user_and_host() {
    assert_eq!(make_title("bob", "host"), "bob@host");
    assert_eq!(make_title("", ""), "@");
}

#[test]
fn single_cpu() {
    assert_eq!(cpu_infos(&names(&["M1"])), pairs(&[("CPU", "M1")]));
}

#[test]
fn identical_cpus_are_counted() {
    assert_eq!(cpu_infos(&names(&["Xeon", "Xeon", "Xeon"])), pairs(&[("CPU", "Xeon * 3")]));
}

#[test]
fn distinct_cpus_are_numbered() {
    assert_eq!(
        cpu_infos(&names(&["A", "B"])),
        pairs(&[("CPU-0/2", "A"), ("CPU-1/2", "B")])
    );
    let many: Vec<String> = (0..12).map(|i| format!("c{}", i)).collect();
    let rows = cpu_infos(&many);
    assert_eq!(rows.len(), 12);
    assert_eq!(rows[11], ("CPU-11/12".to_string(), "c11".to_string()));
}

#[test]
fn no_cpus_no_rows() {
    assert!(cpu_infos(&vec![]).is_empty());
    assert!(gpu_infos(&vec![]).is_empty());
}

#[test]
fn gpu_rows() {
    assert_eq!(gpu_infos(&names(&["RTX"])), pairs(&[("GPU", "RTX")]));
    assert_eq!(gpu_infos(&names(&["A", "A"])), pairs(&[("GPU-0", "A"), ("GPU-1", "A")]));
}

#[test]
fn infos_in_order() {
    let f = SystemFacts {
        os: Some("Foo OS".to_string()),
        model: None,
        host: Some("box".to_string()),
        kernel: Some("6.1".to_string()),
        uptime: 3600,
        arch: Some("x86_64".to_string()),
        shell: "foo".to_string(),
        cpus: names(&["Z"]),
        gpus: vec![],
    };
    assert_eq!(
        infos_of(&f),
        pairs(&[
            ("OS", "Foo OS"),
            ("Host", "box"),
            ("Kernel", "6.1"),
            ("Uptime", "3600"),
            ("Arch", "x86_64"),
            ("Shell", "foo"),
            ("CPU", "Z"),
        ])
    );
}

#[test]
fn model_filler_removed() {
    assert_eq!(clean_model("ASUS All Series"), "ASUS ");
    assert_eq!(clean_model("To be filled by O.E.M. X1"), " X1");
    assert_eq!(clean_model("Dell To Be Filled whatever\nNext"), "Dell \nNext");
    assert_eq!(clean_model("Acme OEM junk"), "Acme ");
    assert_eq!(clean_model("Thinkpad T14"), "Thinkpad T14");
    assert_eq!(clean_model("Not SpecifiedINVALID"), "");
    assert_eq!(clean_model("Board\u{fffd}"), "Board");
}

#[test]
fn virtual_machines_marked() {
    assert_eq!(clean_model("Standard PC (Q35)"), "KVM/QEMU ($Standard PC (Q35))");
    assert_eq!(clean_model("OpenBSD VMM"), "vmm ($OpenBSD VMM)");
}

#[test]
fn wmic_second_line() {
    assert_eq!(wmic_model("Manufacturer\tModel\nLENOVO\t20XX\n"), Some("LENOVO 20XX".to_string()));
    assert_eq!(wmic_model("only one line"), None);
}

#[test]
fn freemint_tag_removed() {
    assert_eq!(freemint_model("  Falcon _MCH   030 "), "Falcon030");
    assert_eq!(freemint_model(" TT "), "TT");
}

use crashdoctor::model::{Confidence, Diagnosis, Loader};
use crashdoctor::report::parse;
use crashdoctor::rules::{evaluate, Evaluation};
use crashdoctor::terminal::{
    loader_line, print_debug, print_diagnosis, print_header, print_report, Out,
};

#[test]
fn lines_fields_and_blocks() {
    let mut out = Out::new();
    assert_eq!(out.text, "");
    out.line("a");
    out.blank();
    out.field("L", "v");
    out.block("B", &vec!["1".to_string(), "2".to_string(), "3".to_string()]);
    out.block("E", &Vec::new());
    assert_eq!(out.text, "a\n\nL: v\nB: 1\n2\n3\n");
}

#[test]
fn header_and_loader() {
    let mut r = match parse("Description: x\n", "dir/crash.txt") {
        Ok(r) => r,
        Err(e) => panic!("{}", e.message()),
    };
    let mut out = Out::new();
    print_header(&mut out, &r);
    assert_eq!(out.text, "crashdoctor · dir/crash.txt\nunknown loader\n");
    r.loader = Loader::NeoForge;
    assert_eq!(loader_line(&r), "NeoForge");
    r.loader_version = Some("20.4".to_string());
    r.mc_version = Some("1.20.4".to_string());
    r.java_version = Some("21".to_string());
    r.mods = vec![crashdoctor::model::ModInfo::new("a", "A", "1")];
    let mut out = Out::new();
    print_header(&mut out, &r);
    assert_eq!(
        out.text,
        "crashdoctor · dir/crash.txt\nNeoForge 20.4 · Minecraft 1.20.4 · 1 mods · Java 21\nnote: this report comes from NeoForge. crashdoctor is tuned for Forge 1.20.1, so the reading may be incomplete\n"
    );
}

#[test]
fn diagnosis_in_full() {
    let mut d = Diagnosis::new(None, "why".to_string(), Confidence::Medium);
    d.evidence = vec!["e1".to_string(), "e2".to_string()];
    d.fix = vec!["f".to_string()];
    let mut out = Out::new();
    print_diagnosis(&mut out, &d);
    assert_eq!(
        out.text,
        "\nCULPRIT: unknown\nCAUSE: why\nEVIDENCE: e1\ne2\nFIX: f\nCONFIDENCE: medium ( ._. )\n"
    );
}

#[test]
fn debug_in_full() {
    let mut r = match parse("java.lang.OutOfMemoryError: é\n", "x") {
        Ok(r) => r,
        Err(e) => panic!("{}", e.message()),
    };
    r.warnings = vec!["w".to_string()];
    r.xmx_mb = Some(512);
    let ev = Evaluation {
        diagnosis: Diagnosis::new(None, "c".to_string(), Confidence::Low),
        checks: vec![("one", true), ("two", false)],
    };
    let mut out = Out::new();
    print_debug(&mut out, &r, &ev);
    assert_eq!(
        out.text,
        "\n-- debug --\nbytes read: 31\ndescription: -\nsections: none\nframes: 0\nexceptions: java.lang.OutOfMemoryError: é\nmods: 0 ()\njvm flags: none\n-Xmx: 512 MB · heap max: -\nrule one: matched\nrule two: no\nwarning: w\nnote: nothing matched with high confidence\n"
    );
    let ev = Evaluation {
        diagnosis: Diagnosis::new(None, "c".to_string(), Confidence::High),
        checks: Vec::new(),
    };
    let mut out = Out::new();
    print_debug(&mut out, &r, &ev);
    assert!(!out.text.contains("note:"));
}

#[test]
fn debug_only_adds() {
    let text = "Description: x\n-- A --\n-- B --\n\tat a.B.c()\nMod List:\n\tX | x | 1\n\tY | y | 2\n";
    let r = match parse(text, "x") {
        Ok(r) => r,
        Err(e) => panic!("{}", e.message()),
    };
    let ev = evaluate(&r);
    let short = print_report(&r, &ev, false);
    let long = print_report(&r, &ev, true);
    assert!(long.starts_with(&short));
    assert!(short.starts_with("crashdoctor · x\nunknown loader · 2 mods\n\nCULPRIT: unknown\n"));
    assert!(long.contains("\nsections: A, B\n"));
    assert!(long.contains("\nmods: 2 (x 1, y 2)\n"));
    assert!(long.contains("\nframes: 1\n"));
    assert!(long.contains("\nrule no rule matched (package guess): matched\n"));
}

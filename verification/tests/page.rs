use crashdoctor::rules::evaluate;
use crashdoctor::model::{Confidence, Diagnosis};
use crashdoctor::report::parse;
use crashdoctor::ui::answer::{
    allowed_path, bad_request, diagnose_text, exit_code, file_reply, handle, list_reply, reason,
    refused, Action, Answer, ContentKind, FullPath, Reply, UiState,
};
use crashdoctor::ui::json::{diagnosis_json, error_json, json_str};
use crashdoctor::ui::listing::{
    age_label, find_reports, is_report_name, is_wanted, listing_json, peek_description, recent_json,
    size_label, Entry, Folder, Found, Meta, Stamp,
};
use crashdoctor::ui::options::{ScanDir, UiOptions};
use crashdoctor::ui::request::{query_value, Head, Request, RequestError, MAX_BODY};
use crashdoctor::ui::token::make_token;

fn state() -> UiState {
    UiState { token: "00ff".to_string(), port: 8787 }
}

fn request(method: &str, target: &str, token: Option<&str>, body: &str) -> Request {
    Request {
        method: method.to_string(),
        target: target.to_string(),
        host: Some("127.0.0.1:8787".to_string()),
        token: token.map(|s| s.to_string()),
        body: body.as_bytes().to_vec(),
    }
}

fn sent(a: Action) -> Reply {
    match a {
        Action::Send(r) => r,
        Action::List => panic!("list"),
        Action::Locate(p) => panic!("locate {p}"),
    }
}

const PAGE: &str = "<a href=__TOKEN__>__TOKEN__</a>";

#[test]
fn json_strings() {
    assert_eq!(json_str("plain é"), "\"plain é\"");
    assert_eq!(json_str("a\"b\\c\nd\re\tf"), "\"a\\\"b\\\\c\\nd\\re\\tf\"");
    assert_eq!(json_str("\u{0}\u{1f}\u{7f}"), "\"\\u0000\\u001f\u{7f}\"");
    assert_eq!(json_str(""), "\"\"");
    assert_eq!(error_json("x\"y"), "{\"empty\":true,\"error\":\"x\\\"y\"}");
}

#[test]
fn diagnoses_as_json() {
    let mut d = Diagnosis::new(None, "c".to_string(), Confidence::Medium);
    d.evidence = vec!["e1".to_string(), "e2".to_string()];
    d.fix = vec!["f".to_string()];
    assert_eq!(
        diagnosis_json(&d, "s.txt", 2),
        "{\"source\":\"s.txt\",\"culprit\":\"unknown\",\"cause\":\"c\",\"evidence\":[\"e1\",\"e2\"],\"fix\":[\"f\"],\"dev_tip\":[],\"confidence\":\"medium\",\"face\":\"( ._. )\",\"exit\":2,\"empty\":false}"
    );
    assert_eq!(exit_code(&d), 2);
    d.culprit = Some("m".to_string());
    assert_eq!(exit_code(&d), 0);
}

#[test]
fn answers() {
    let a = diagnose_text("nothing", "dropped report");
    assert_eq!(a.status, 400);
    assert!(a.body.starts_with("{\"empty\":true,\"error\":\"\\\"dropped report\\\" does not look like"));
    let text = "java.lang.OutOfMemoryError: x\n";
    let a = diagnose_text(text, "l");
    assert_eq!(a.status, 200);
    let r = match parse(text, "l") {
        Ok(r) => r,
        Err(e) => panic!("{}", e.message()),
    };
    assert_eq!(a.body, diagnosis_json(&evaluate(&r).diagnosis, "l", 0));
    assert_eq!(Answer::bad("w").body, error_json("w"));
    assert_eq!(Answer::bad("w").status, 400);
}

#[test]
fn request_heads() {
    let mut h = Head::new("POST /api/x?y HTTP/1.1\r\n");
    assert_eq!((h.method.as_str(), h.target.as_str()), ("POST", "/api/x?y"));
    assert!(h.add("HOST:  a:1 \r\n"));
    assert!(h.add("X-Crashdoctor-Token: t\r\n"));
    assert!(h.add("Content-Length: 12\r\n"));
    assert!(h.add("Accept: b\r\n"));
    assert!(h.add("no colon\r\n"));
    assert!(h.add("host: b:2\r\n"));
    assert!(!h.add("\r\n"));
    assert_eq!(h.host.as_deref(), Some("b:2"));
    assert_eq!(h.token.as_deref(), Some("t"));
    assert_eq!(h.body_length(), Ok(12));
    let r = h.with_body(vec![1, 2]);
    assert_eq!(r.method, "POST");
    assert_eq!(r.body, vec![1, 2]);
    assert_eq!(r.host.as_deref(), Some("b:2"));
    let h = Head::new("\r\n");
    assert_eq!((h.method.as_str(), h.target.as_str()), ("", "/"));
    assert_eq!(h.host, None);
}

#[test]
fn headers_in_any_order() {
    let mut a = Head::new("GET / HTTP/1.1");
    a.add("Host: h");
    a.add("Content-Length: 3");
    let mut b = Head::new("GET / HTTP/1.1");
    b.add("Content-Length: 3");
    b.add("Host: h");
    assert_eq!((a.host, a.length), (b.host, b.length));
}

#[test]
fn request_bodies() {
    let mut h = Head::new("GET /");
    assert_eq!(h.body_length(), Ok(0));
    h.add(&format!("content-length: {MAX_BODY}"));
    assert_eq!(h.body_length(), Ok(8 * 1024 * 1024));
    h.add(&format!("content-length: {}", MAX_BODY + 1));
    assert_eq!(h.body_length(), Err(RequestError::TooBig));
    h.add("content-length: -5");
    assert_eq!(h.body_length(), Ok(0));
    assert_eq!(RequestError::TooBig.message(), "that request body is too big");
    assert_eq!(RequestError::Empty.message(), "empty request");
}

#[test]
fn queries() {
    assert_eq!(query_value("/?t=1&u=2", "u").as_deref(), Some("2"));
    assert_eq!(query_value("/?t=1&t=2", "t").as_deref(), Some("1"));
    assert_eq!(query_value("/?t", "t").as_deref(), Some(""));
    assert_eq!(query_value("/?a=b=c", "a").as_deref(), Some("b=c"));
    assert_eq!(query_value("/?t=1", "x"), None);
    assert_eq!(query_value("/", "t"), None);
}

#[test]
fn wrong_hosts() {
    for host in [None, Some("localhost"), Some("127.0.0.1:8788"), Some("evil.example:8787")] {
        let mut req = request("GET", "/?t=00ff", Some("00ff"), "");
        req.host = host.map(|s| s.to_string());
        let r = sent(handle(&req, &state(), PAGE));
        assert_eq!(r.status, 403);
        assert_eq!(r.kind, ContentKind::Text);
        assert_eq!(r.body, "bad Host header: this server only answers to 127.0.0.1");
    }
    let mut req = request("GET", "/?t=00ff", None, "");
    req.host = Some("localhost:8787".to_string());
    assert_eq!(sent(handle(&req, &state(), PAGE)).status, 200);
}

#[test]
fn page_and_its_secret() {
    assert_eq!(state().url(), "http://127.0.0.1:8787/?t=00ff");
    let r = sent(handle(&request("GET", "/?t=00ff", None, ""), &state(), PAGE));
    assert_eq!((r.status, r.kind), (200, ContentKind::Html));
    assert_eq!(r.body, "<a href=00ff>00ff</a>");
    let r = sent(handle(&request("GET", "/?t=00fe", Some("00ff"), ""), &state(), PAGE));
    assert_eq!(r.status, 403);
    assert_eq!(r.body, "missing or wrong token: use the URL printed by crashdoctor");
    let r = sent(handle(&request("POST", "/?t=00ff", Some("00ff"), ""), &state(), PAGE));
    assert_eq!(r.status, 404);
    assert_eq!(r.body, "there is nothing here");
}

#[test]
fn guarded_requests() {
    for (method, target) in [
        ("GET", "/api/recent"),
        ("POST", "/api/diagnose-text"),
        ("POST", "/api/diagnose-file"),
        ("DELETE", "/api/recent?x"),
    ] {
        let r = sent(handle(&request(method, target, Some("bad"), "x"), &state(), PAGE));
        assert_eq!((r.status, r.kind), (403, ContentKind::Json));
        assert_eq!(r.body, error_json("missing or wrong token header"));
    }
    let r = sent(handle(&request("POST", "/api/recent", Some("00ff"), ""), &state(), PAGE));
    assert_eq!(r.status, 403);
    let listed = handle(&request("GET", "/api/recent?a", Some("00ff"), ""), &state(), PAGE);
    assert!(matches!(listed, Action::List));
    let r = sent(handle(&request("GET", "/api/other", Some("00ff"), ""), &state(), PAGE));
    assert_eq!(r.status, 404);
}

#[test]
fn diagnosing_a_text() {
    let text = "java.lang.OutOfMemoryError: x\n";
    let req = request("POST", "/api/diagnose-text", Some("00ff"), text);
    let r = sent(handle(&req, &state(), PAGE));
    assert_eq!((r.status, r.kind), (200, ContentKind::Json));
    assert_eq!(r.body, diagnose_text(text, "dropped report").body);
    let mut req = request("POST", "/api/diagnose-text", Some("00ff"), "");
    req.body = b"Description: \xff\n".to_vec();
    let r = sent(handle(&req, &state(), PAGE));
    assert_eq!(r.body, diagnose_text("Description: \u{fffd}\n", "dropped report").body);
}

#[test]
fn diagnosing_a_file() {
    let req = request("POST", "/api/diagnose-file", Some("00ff"), " /a/b.txt \n");
    match handle(&req, &state(), PAGE) {
        Action::Locate(p) => assert_eq!(p, "/a/b.txt"),
        _ => panic!("locate"),
    }
    let req = request("POST", "/api/diagnose-file", Some("00ff"), " \n");
    let r = sent(handle(&req, &state(), PAGE));
    assert_eq!((r.status, r.body), (400, error_json("no path in the request")));
    let r = file_reply("/a/b.txt", &Err("denied".to_string()));
    assert_eq!((r.status, r.body), (400, error_json("could not read /a/b.txt: denied")));
    let r = file_reply("/a/b.txt", &Ok(b"Description: x\r\n".to_vec()));
    assert_eq!((r.status, r.body), (200, diagnose_text("Description: x\n", "/a/b.txt").body));
}

fn parts(path: &str) -> Vec<Vec<u8>> {
    path.split('/').map(|p| p.as_bytes().to_vec()).collect()
}

fn full(path: &str) -> Result<FullPath, String> {
    Ok(FullPath { label: path.to_string(), parts: parts(path) })
}

#[test]
fn files_of_the_folders() {
    let roots = vec![None, Some(parts("/x")), Some(parts("/a/b"))];
    for path in ["/a/b", "/a/b/c.txt", "/a/b/d/c.txt", "/x/c.txt"] {
        let got = allowed_path("c.txt", full(path), &roots);
        assert_eq!(got.map(|p| (p.label, p.parts)), Ok((path.to_string(), parts(path))));
    }
    for path in ["/a", "/a/bc/c.txt", "/a/c.txt", "/xy", "/"] {
        let got = allowed_path("c.txt", full(path), &roots);
        let why = format!("{path} is outside the folders crashdoctor looks at");
        assert_eq!(got.map(|p| p.label), Err(why));
    }
    let got = allowed_path("c.txt", full("/a/b/c.txt"), &vec![None]);
    assert!(got.is_err());
    let got = allowed_path("c.txt", Err("gone".to_string()), &roots);
    assert_eq!(got.map(|p| p.label), Err("could not open c.txt: gone".to_string()));
    let r = refused("could not open c.txt: gone");
    assert_eq!((r.status, r.kind), (400, ContentKind::Json));
    assert_eq!(r.body, error_json("could not open c.txt: gone"));
}

#[test]
fn empty_paths() {
    let roots = vec![Some(parts("/a/b"))];
    let want = Err("no path in the request".to_string());
    let got = allowed_path("", full("/a/b/c.txt"), &roots);
    assert_eq!(got.map(|p| p.label), want);
    let got = allowed_path("", Err("gone".to_string()), &roots);
    assert_eq!(got.map(|p| p.label), want);
}

#[test]
fn reply_heads() {
    let r = Reply { status: 200, kind: ContentKind::Html, body: "é!".to_string() };
    assert_eq!(
        r.head(),
        "HTTP/1.1 200 OK\r\nContent-Type: text/html; charset=utf-8\r\nContent-Length: 3\r\nCache-Control: no-store\r\nConnection: close\r\n\r\n"
    );
    let r = bad_request("why");
    assert_eq!((r.status, r.kind, r.body.as_str()), (400, ContentKind::Text, "why"));
    assert_eq!(reason(400), "Bad Request");
    assert_eq!(reason(403), "Forbidden");
    assert_eq!(reason(404), "Not Found");
    assert_eq!(reason(405), "Method Not Allowed");
    assert_eq!(reason(500), "Error");
    assert_eq!(ContentKind::Text.label(), "text/plain; charset=utf-8");
    assert_eq!(ContentKind::Json.label(), "application/json; charset=utf-8");
}

#[test]
fn folders_to_scan() {
    let mut o = UiOptions { port: 0, extra_dir: None, open_browser: false };
    assert_eq!(o.scan_dirs(false), vec![ScanDir::LocalReports, ScanDir::Here]);
    o.extra_dir = Some(std::path::PathBuf::from("x"));
    assert_eq!(
        o.scan_dirs(true),
        vec![ScanDir::HomeReports, ScanDir::LocalReports, ScanDir::Here, ScanDir::Extra]
    );
}

#[test]
fn names_of_reports() {
    assert!(is_report_name("crash-1.txt", false));
    assert!(!is_report_name("note.txt", false));
    assert!(is_report_name("note.txt", true));
    assert!(!is_report_name("crash-1.log", true));
    assert!(is_wanted("crash-1.txt", false, Some(true)));
    assert!(!is_wanted("crash-1.txt", false, Some(false)));
    assert!(!is_wanted("crash-1.txt", false, None));
    assert!(!is_wanted("note.txt", false, Some(true)));
}

#[test]
fn descriptions() {
    assert_eq!(peek_description("a\nDescription:  Boom \r\nDescription: x\n"), "Boom");
    assert_eq!(peek_description(" Description: x\n"), "");
    let long = format!("Description: {}", "é".repeat(91));
    assert_eq!(peek_description(&long), "é".repeat(90));
}

#[test]
fn ages() {
    let now = Stamp { secs: 1_000_000, nanos: 5 };
    let ago = |s: i64| Stamp { secs: 1_000_000 - s, nanos: 5 };
    assert_eq!(age_label(now, ago(0)), "just now");
    assert_eq!(age_label(now, ago(-10)), "just now");
    assert_eq!(age_label(now, ago(59)), "just now");
    assert_eq!(age_label(now, ago(60)), "1 min ago");
    assert_eq!(age_label(now, Stamp { secs: 1_000_000 - 60, nanos: 6 }), "just now");
    assert_eq!(age_label(now, ago(3599)), "59 min ago");
    assert_eq!(age_label(now, ago(3600)), "1 h ago");
    assert_eq!(age_label(now, ago(86399)), "23 h ago");
    assert_eq!(age_label(now, ago(86400)), "yesterday");
    assert_eq!(age_label(now, ago(172800)), "2 days ago");
    let first = Stamp { secs: i64::MIN, nanos: 0 };
    let last = Stamp { secs: i64::MAX, nanos: u32::MAX };
    assert_eq!(age_label(last, first), "213503982334601 days ago");
}

#[test]
fn sizes() {
    assert_eq!(size_label(0, "0.0"), "1 KB");
    assert_eq!(size_label(1023, "0.0"), "1 KB");
    assert_eq!(size_label(2048, "0.0"), "2 KB");
    assert_eq!(size_label(1024 * 1024 - 1, "1.0"), "1023 KB");
    assert_eq!(size_label(1024 * 1024, "1.0"), "1.0 MB");
}

fn found(name: &str, secs: i64) -> Found {
    Found {
        path: format!("/r/{name}"),
        name: name.to_string(),
        modified: Stamp { secs, nanos: 0 },
        description: "d".to_string(),
        size: "1 KB".to_string(),
    }
}

#[test]
fn listing_newest_first() {
    let now = Stamp { secs: 100, nanos: 0 };
    let text = listing_json(vec![found("a", 10), found("b", 30), found("c", 10), found("d", 20)], now);
    assert_eq!(
        text,
        "[{\"path\":\"/r/b\",\"name\":\"b\",\"size\":\"1 KB\",\"age\":\"1 min ago\",\"description\":\"d\"},\
{\"path\":\"/r/d\",\"name\":\"d\",\"size\":\"1 KB\",\"age\":\"1 min ago\",\"description\":\"d\"},\
{\"path\":\"/r/a\",\"name\":\"a\",\"size\":\"1 KB\",\"age\":\"1 min ago\",\"description\":\"d\"},\
{\"path\":\"/r/c\",\"name\":\"c\",\"size\":\"1 KB\",\"age\":\"1 min ago\",\"description\":\"d\"}]"
    );
    assert_eq!(listing_json(Vec::new(), now), "[]");
    let r = list_reply(&Vec::new(), now);
    assert_eq!((r.status, r.kind, r.body.as_str()), (200, ContentKind::Json, "[]"));
    let many: Vec<Found> = (0..30).map(|i| found(&format!("n{i}"), i)).collect();
    let text = listing_json(many, now);
    assert_eq!(text.matches("\"name\"").count(), 25);
    assert!(text.contains("\"n29\"") && text.contains("\"n5\"") && !text.contains("\"n4\""));
}

fn entry(name: &str, is_file: Option<bool>, modified: Option<i64>, text: Option<&str>) -> Entry {
    Entry {
        path: format!("d/{name}"),
        name: name.to_string(),
        meta: is_file.map(|is_file| Meta {
            is_file,
            modified: modified.map(|secs| Stamp { secs, nanos: 0 }),
            size: 3 * 1024,
            megabytes: "0.0".to_string(),
        }),
        text: text.map(|s| s.to_string()),
    }
}

#[test]
fn only_wanted_files_are_found() {
    let names = |explicit: bool| {
        vec![
            entry("crash-a.txt", Some(true), Some(5), Some("Description: A\n")),
            entry("note.txt", Some(true), Some(6), Some("no description")),
            entry("crash-dir.txt", Some(false), Some(7), None),
            entry("crash-gone.txt", None, None, None),
            entry("crash-b.log", Some(true), Some(8), None),
            entry(if explicit { "crash-x.txt" } else { "crash-y.txt" }, Some(true), None, None),
        ]
    };
    let folders = vec![
        Folder { explicit: false, entries: None },
        Folder { explicit: false, entries: Some(names(false)) },
        Folder { explicit: true, entries: Some(names(true)) },
    ];
    let found = find_reports(&folders);
    let got: Vec<(&str, &str, &str, i64)> = found
        .iter()
        .map(|f| (f.name.as_str(), f.description.as_str(), f.size.as_str(), f.modified.secs))
        .collect();
    assert_eq!(
        got,
        vec![
            ("crash-a.txt", "A", "3 KB", 5),
            ("crash-y.txt", "", "3 KB", 0),
            ("crash-a.txt", "A", "3 KB", 5),
            ("note.txt", "", "3 KB", 6),
            ("crash-x.txt", "", "3 KB", 0),
        ]
    );
    let now = Stamp { secs: 100, nanos: 0 };
    let text = recent_json(&folders, now);
    assert_eq!(text, listing_json(find_reports(&folders), now));
    assert!(text.starts_with("[{\"path\":\"d/note.txt\",\"name\":\"note.txt\""));
    assert_eq!(list_reply(&folders, now).body, text);
}

#[test]
fn secrets() {
    let t = make_token(1, 0);
    assert_eq!(t.len(), 16);
    let mut s: u64 = 1;
    let mut want = String::new();
    for _ in 0..16 {
        s ^= s << 13;
        s ^= s >> 7;
        s ^= s << 17;
        want.push(char::from_digit((s % 16) as u32, 16).unwrap());
    }
    assert_eq!(t, want);
    assert_eq!(make_token(0, 0), "0000000000000000");
    assert_eq!(make_token((1u128 << 64) + 1, 0), t);
    assert_ne!(make_token(1, 7), t);
    assert_eq!(make_token(1 << 48, 1), make_token(0, 0));
}

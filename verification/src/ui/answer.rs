//! What a request is answered.
use vstd::prelude::*;
use crate::model::{Diagnosis, DiagnosisView};
use crate::number::{decimal, decimal_text};
use crate::report::{error_text, parse, report_of};
use crate::rules::{evaluate, evaluation_of};
use crate::text::{
    before_first, cat2, cat4, from_utf8_lossy, head, line_feeds, replace, replaced, same, text_of,
    to_line_feeds, trim, trimmed, utf8_lossy, CharSet,
};
use crate::ui::json::{diagnosis_json, diagnosis_object, error_json, error_object};
use crate::ui::listing::{found_among, folders_of, listing_array, recent_json, Folder, Stamp};
use crate::ui::request::{query_of, query_value, Request, RequestView};
use vstd::utf8::encode_utf8;

verus! {

/// What kind of text a reply carries.
#[derive(Debug, Clone, Copy, PartialEq, Eq, Structural)]
pub enum ContentKind {
    Text,
    Html,
    Json,
}

pub open spec fn kind_label(k: ContentKind) -> Seq<char> {
    match k {
        ContentKind::Text => "text/plain; charset=utf-8"@,
        ContentKind::Html => "text/html; charset=utf-8"@,
        ContentKind::Json => "application/json; charset=utf-8"@,
    }
}

impl ContentKind {
    pub fn label(self) -> (r: &'static str)
        ensures
            r@ == kind_label(self),
    {
        match self {
            ContentKind::Text => "text/plain; charset=utf-8",
            ContentKind::Html => "text/html; charset=utf-8",
            ContentKind::Json => "application/json; charset=utf-8",
        }
    }
}

/// What a status means, in words.
pub open spec fn reason_text(status: nat) -> Seq<char> {
    if status == 200 {
        "OK"@
    } else if status == 400 {
        "Bad Request"@
    } else if status == 403 {
        "Forbidden"@
    } else if status == 404 {
        "Not Found"@
    } else if status == 405 {
        "Method Not Allowed"@
    } else {
        "Error"@
    }
}

pub fn reason(status: u16) -> (r: &'static str)
    ensures
        r@ == reason_text(status as nat),
{
    match status {
        200 => "OK",
        400 => "Bad Request",
        403 => "Forbidden",
        404 => "Not Found",
        405 => "Method Not Allowed",
        _ => "Error",
    }
}

/// What is sent back to the browser.
pub struct Reply {
    pub status: u16,
    pub kind: ContentKind,
    pub body: String,
}

pub struct ReplyView {
    pub status: nat,
    pub kind: ContentKind,
    pub body: Seq<char>,
}

impl View for Reply {
    type V = ReplyView;

    open spec fn view(&self) -> ReplyView {
        ReplyView { status: self.status as nat, kind: self.kind, body: self.body@ }
    }
}

/// How many bytes a text takes.
pub open spec fn byte_count(s: Seq<char>) -> nat {
    encode_utf8(s).len() as usize as nat
}

/// The head of a reply.
pub open spec fn reply_head(r: ReplyView) -> Seq<char> {
    "HTTP/1.1 "@ + decimal(r.status) + " "@ + reason_text(r.status) + "\r\nContent-Type: "@
        + kind_label(r.kind) + "\r\nContent-Length: "@ + decimal(byte_count(r.body))
        + "\r\nCache-Control: no-store\r\nConnection: close\r\n\r\n"@
}

impl Reply {
    /// What goes in front of the body.
    pub fn head(&self) -> (r: String)
        ensures
            r@ == reply_head(self@),
    {
        let mut r = cat4(
            "HTTP/1.1 ",
            &decimal_text(self.status as u64),
            " ",
            reason(self.status),
        );
        r.append("\r\nContent-Type: ");
        r.append(self.kind.label());
        r.append("\r\nContent-Length: ");
        r.append(&decimal_text(self.body.as_str().len() as u64));
        r.append("\r\nCache-Control: no-store\r\nConnection: close\r\n\r\n");
        r
    }
}

pub open spec fn text_reply(status: nat, body: Seq<char>) -> ReplyView {
    ReplyView { status, kind: ContentKind::Text, body }
}

pub open spec fn json_reply(a: AnswerView) -> ReplyView {
    ReplyView { status: a.status, kind: ContentKind::Json, body: a.body }
}

fn reply_text(status: u16, body: &str) -> (r: Reply)
    ensures
        r@ == text_reply(status as nat, body@),
{
    Reply { status, kind: ContentKind::Text, body: body.to_owned() }
}

fn reply_json(a: Answer) -> (r: Reply)
    ensures
        r@ == json_reply(a@),
{
    Reply { status: a.status, kind: ContentKind::Json, body: a.body }
}

/// The reply to a request that could not be read.
pub fn bad_request(why: &str) -> (r: Reply)
    ensures
        r@ == text_reply(400, why@),
{
    reply_text(400, why)
}

/// A diagnosis or an error.
pub struct Answer {
    pub status: u16,
    pub body: String,
}

pub struct AnswerView {
    pub status: nat,
    pub body: Seq<char>,
}

impl View for Answer {
    type V = AnswerView;

    open spec fn view(&self) -> AnswerView {
        AnswerView { status: self.status as nat, body: self.body@ }
    }
}

pub open spec fn bad_answer(why: Seq<char>) -> AnswerView {
    AnswerView { status: 400, body: error_object(why) }
}

impl Answer {
    pub fn bad(why: &str) -> (r: Self)
        ensures
            r@ == bad_answer(why@),
    {
        Self { status: 400, body: error_json(why) }
    }
}

/// The status with which the program ends: success where a culprit is named.
pub open spec fn exit_status(d: DiagnosisView) -> nat {
    if d.culprit is Some {
        0
    } else {
        2
    }
}

pub fn exit_code(d: &Diagnosis) -> (r: u8)
    ensures
        r == exit_status(d@),
{
    if d.culprit.is_some() {
        0
    } else {
        2
    }
}

/// The answer to a text that is said to be a report.
#[verifier::opaque]
pub open spec fn answer_of(text: Seq<char>, label: Seq<char>) -> AnswerView {
    match report_of(text, label) {
        Ok(r) => {
            let d = evaluation_of(r).diagnosis;
            AnswerView { status: 200, body: diagnosis_object(d, label, exit_status(d)) }
        },
        Err(e) => bad_answer(error_text(e)),
    }
}

pub fn diagnose_text(text: &str, label: &str) -> (r: Answer)
    ensures
        r@ == answer_of(text@, label@),
{
    reveal(answer_of);
    match parse(text, label) {
        Ok(report) => {
            let evaluation = evaluate(&report);
            let exit = exit_code(&evaluation.diagnosis);
            Answer { status: 200, body: diagnosis_json(&evaluation.diagnosis, label, exit) }
        },
        Err(err) => Answer::bad(&err.message()),
    }
}

/// What the server knows of itself: the secret of its page, and its port.
pub struct UiState {
    pub token: String,
    pub port: u16,
}

/// The address of the page.
pub open spec fn page_url(token: Seq<char>, port: nat) -> Seq<char> {
    "http://127.0.0.1:"@ + decimal(port) + "/?t="@ + token
}

impl UiState {
    pub fn url(&self) -> (r: String)
        ensures
            r@ == page_url(self.token@, self.port as nat),
    {
        cat4("http://127.0.0.1:", &decimal_text(self.port as u64), "/?t=", &self.token)
    }
}

/// Whether a request names this server as its host.
pub open spec fn own_host(host: Option<Seq<char>>, port: nat) -> bool {
    match host {
        Some(host) => host == "127.0.0.1:"@ + decimal(port) || host == "localhost:"@ + decimal(
            port,
        ),
        None => false,
    }
}

fn is_own_host(host: &Option<String>, port: u16) -> (r: bool)
    ensures
        r == own_host(text_of(*host), port as nat),
{
    match host {
        Some(host) => {
            let number = decimal_text(port as u64);
            same(host, &cat2("127.0.0.1:", &number)) || same(host, &cat2("localhost:", &number))
        },
        None => false,
    }
}

/// What there is to do for a request.
pub enum Action {
    /// Send a reply.
    Send(Reply),
    /// List the reports in the folders.
    List,
    /// Find the file that a path names.
    Locate(String),
}

pub enum ActionView {
    Send(ReplyView),
    List,
    Locate(Seq<char>),
}

impl View for Action {
    type V = ActionView;

    open spec fn view(&self) -> ActionView {
        match self {
            Action::Send(r) => ActionView::Send(r@),
            Action::List => ActionView::List,
            Action::Locate(s) => ActionView::Locate(s@),
        }
    }
}

/// What stands for the secret in the page.
pub const TOKEN_MARK: &'static str = "__TOKEN__";

/// The target without its query.
pub open spec fn target_path(target: Seq<char>) -> Seq<char> {
    before_first(target, CharSet::Just('?'))
}

/// Whether a path is one that only the page may ask for.
pub open spec fn guarded_path(path: Seq<char>) -> bool {
    ||| path == "/api/recent"@
    ||| path == "/api/diagnose-text"@
    ||| path == "/api/diagnose-file"@
}

/// What there is to do for a request that names this server and carries the secret in its header.
pub open spec fn guarded_action(req: RequestView) -> Option<ActionView> {
    let path = target_path(req.target);
    if req.method == "GET"@ && path == "/api/recent"@ {
        Some(ActionView::List)
    } else if req.method == "POST"@ && path == "/api/diagnose-text"@ {
        Some(
            ActionView::Send(json_reply(answer_of(utf8_lossy(req.body), "dropped report"@))),
        )
    } else if req.method == "POST"@ && path == "/api/diagnose-file"@ {
        let asked = trimmed(utf8_lossy(req.body));
        if asked.len() == 0 {
            Some(ActionView::Send(json_reply(bad_answer("no path in the request"@))))
        } else {
            Some(ActionView::Locate(asked))
        }
    } else {
        None
    }
}

/// What there is to do for a request that asks for the page.
pub open spec fn page_action(target: Seq<char>, token: Seq<char>, page: Seq<char>) -> ActionView {
    if query_of(target, "t"@) == Some(token) {
        ActionView::Send(
            ReplyView {
                status: 200,
                kind: ContentKind::Html,
                body: replaced(page, TOKEN_MARK@, token),
            },
        )
    } else {
        ActionView::Send(
            text_reply(403, "missing or wrong token: use the URL printed by crashdoctor"@),
        )
    }
}

/// What there is to do for a request that names this server as its host.
pub open spec fn own_action(req: RequestView, token: Seq<char>, page: Seq<char>) -> ActionView {
    let path = target_path(req.target);
    if req.method == "GET"@ && path == "/"@ {
        page_action(req.target, token, page)
    } else if req.token == Some(token) && guarded_action(req) is Some {
        guarded_action(req).unwrap()
    } else if guarded_path(path) {
        ActionView::Send(
            ReplyView {
                status: 403,
                kind: ContentKind::Json,
                body: error_object("missing or wrong token header"@),
            },
        )
    } else {
        ActionView::Send(text_reply(404, "there is nothing here"@))
    }
}

/// What there is to do for a request.
pub open spec fn action_of(
    req: RequestView,
    token: Seq<char>,
    port: nat,
    page: Seq<char>,
) -> ActionView {
    if !own_host(req.host, port) {
        ActionView::Send(
            text_reply(403, "bad Host header: this server only answers to 127.0.0.1"@),
        )
    } else {
        own_action(req, token, page)
    }
}

fn guarded(req: &Request, path: &str) -> (r: Option<Action>)
    requires
        path@ == target_path(req@.target),
    ensures
        match r {
            Some(a) => guarded_action(req@) == Some(a@),
            None => guarded_action(req@) is None,
        },
{
    if same(&req.method, "GET") && same(path, "/api/recent") {
        Some(Action::List)
    } else if same(&req.method, "POST") && same(path, "/api/diagnose-text") {
        let text = from_utf8_lossy(&req.body);
        Some(Action::Send(reply_json(diagnose_text(&text, "dropped report"))))
    } else if same(&req.method, "POST") && same(path, "/api/diagnose-file") {
        let text = from_utf8_lossy(&req.body);
        let asked = trim(&text);
        if asked.is_empty() {
            Some(Action::Send(reply_json(Answer::bad("no path in the request"))))
        } else {
            Some(Action::Locate(asked.to_owned()))
        }
    } else {
        None
    }
}

fn is_token(given: &Option<String>, token: &str) -> (r: bool)
    ensures
        r == (text_of(*given) == Some(token@)),
{
    match given {
        Some(s) => same(s, token),
        None => false,
    }
}

fn open_page(target: &str, token: &str, page: &str) -> (r: Action)
    ensures
        r@ == page_action(target@, token@, page@),
{
    if is_token(&query_value(target, "t"), token) {
        proof {
            reveal_strlit("__TOKEN__");
        }
        let body = replace(page, TOKEN_MARK, token);
        Action::Send(Reply { status: 200, kind: ContentKind::Html, body })
    } else {
        Action::Send(
            reply_text(403, "missing or wrong token: use the URL printed by crashdoctor"),
        )
    }
}

fn serve_own(req: &Request, token: &str, page: &str) -> (r: Action)
    ensures
        r@ == own_action(req@, token@, page@),
{
    let path = head(&req.target, CharSet::Just('?'));
    if same(&req.method, "GET") && same(path, "/") {
        return open_page(&req.target, token, page);
    }
    if is_token(&req.token, token) {
        if let Some(action) = guarded(req, path) {
            return action;
        }
    }
    if same(path, "/api/recent") || same(path, "/api/diagnose-text") || same(
        path,
        "/api/diagnose-file",
    ) {
        Action::Send(
            Reply {
                status: 403,
                kind: ContentKind::Json,
                body: error_json("missing or wrong token header"),
            },
        )
    } else {
        Action::Send(reply_text(404, "there is nothing here"))
    }
}

/// Decides what there is to do for a request. `page` is the page, with marks where its secret goes.
pub fn handle(req: &Request, state: &UiState, page: &str) -> (r: Action)
    ensures
        r@ == action_of(req@, state.token@, state.port as nat, page@),
{
    if !is_own_host(&req.host, state.port) {
        return Action::Send(
            reply_text(403, "bad Host header: this server only answers to 127.0.0.1"),
        );
    }
    serve_own(req, &state.token, page)
}

/// The reply with the list of the reports in the folders.
pub fn list_reply(folders: &Vec<Folder>, now: Stamp) -> (r: Reply)
    ensures
        r@ == (ReplyView {
            status: 200,
            kind: ContentKind::Json,
            body: listing_array(found_among(folders_of(folders@)), now),
        }),
{
    Reply { status: 200, kind: ContentKind::Json, body: recent_json(folders, now) }
}

/// A full path: how it is shown, and its components from the root on.
pub struct FullPath {
    pub label: String,
    pub parts: Vec<Vec<u8>>,
}

pub struct FullPathView {
    pub label: Seq<char>,
    pub parts: Seq<Seq<u8>>,
}

pub open spec fn parts_of(v: Seq<Vec<u8>>) -> Seq<Seq<u8>> {
    v.map_values(|p: Vec<u8>| p@)
}

impl View for FullPath {
    type V = FullPathView;

    open spec fn view(&self) -> FullPathView {
        FullPathView { label: self.label@, parts: parts_of(self.parts@) }
    }
}

/// The contents of what a path was found to be, or why it was not found.
pub open spec fn found_path(found: Result<FullPath, String>) -> Result<FullPathView, Seq<char>> {
    match found {
        Ok(p) => Ok(p@),
        Err(why) => Err(why@),
    }
}

/// The components of folders, `None` for one that could not be opened.
pub open spec fn roots_of(v: Seq<Option<Vec<Vec<u8>>>>) -> Seq<Option<Seq<Seq<u8>>>> {
    v.map_values(
        |root: Option<Vec<Vec<u8>>>|
            match root {
                Some(parts) => Some(parts_of(parts@)),
                None => None,
            },
    )
}

/// Whether a path, by its components, is or lies below a folder.
pub open spec fn lies_in(path: Seq<Seq<u8>>, root: Option<Seq<Seq<u8>>>) -> bool {
    root is Some && root->0.is_prefix_of(path)
}

/// Whether a path, by its components, is or lies below one of the folders.
pub open spec fn lies_in_some(path: Seq<Seq<u8>>, roots: Seq<Option<Seq<Seq<u8>>>>) -> bool {
    exists|i: int| 0 <= i < roots.len() && lies_in(path, #[trigger] roots[i])
}

/// The file that a path names and that may be read, or why none may be: no path was asked for, it
/// leads to nothing, or it leads out of the folders.
pub open spec fn permitted(
    asked: Seq<char>,
    found: Result<FullPathView, Seq<char>>,
    roots: Seq<Option<Seq<Seq<u8>>>>,
) -> Result<FullPathView, Seq<char>> {
    if asked.len() == 0 {
        Err("no path in the request"@)
    } else {
        match found {
            Ok(path) => if lies_in_some(path.parts, roots) {
                Ok(path)
            } else {
                Err(path.label + " is outside the folders crashdoctor looks at"@)
            },
            Err(why) => Err("could not open "@ + asked + ": "@ + why),
        }
    }
}

fn same_bytes(a: &Vec<u8>, b: &Vec<u8>) -> (r: bool)
    ensures
        r == (a@ == b@),
{
    if a.len() != b.len() {
        return false;
    }
    let mut i: usize = 0;
    while i < a.len()
        invariant
            i <= a.len(),
            a.len() == b.len(),
            forall|j: int| 0 <= j < i ==> a@[j] == b@[j],
        decreases a.len() - i,
    {
        if a[i] != b[i] {
            return false;
        }
        i = i + 1;
    }
    assert(a@ =~= b@);
    true
}

fn starts_with_parts(path: &Vec<Vec<u8>>, root: &Vec<Vec<u8>>) -> (r: bool)
    ensures
        r == parts_of(root@).is_prefix_of(parts_of(path@)),
{
    let ghost whole = parts_of(path@);
    let ghost front = parts_of(root@);
    if root.len() > path.len() {
        return false;
    }
    let mut i: usize = 0;
    while i < root.len()
        invariant
            i <= root.len() <= path.len(),
            whole == parts_of(path@),
            front == parts_of(root@),
            forall|j: int| 0 <= j < i ==> front[j] == whole[j],
        decreases root.len() - i,
    {
        assert(front[i as int] == root@[i as int]@);
        assert(whole[i as int] == path@[i as int]@);
        if !same_bytes(&root[i], &path[i]) {
            assert(whole.subrange(0, front.len() as int)[i as int] == whole[i as int]);
            return false;
        }
        i = i + 1;
    }
    assert(front =~= whole.subrange(0, front.len() as int));
    true
}

fn is_in_some(path: &Vec<Vec<u8>>, roots: &Vec<Option<Vec<Vec<u8>>>>) -> (r: bool)
    ensures
        r == lies_in_some(parts_of(path@), roots_of(roots@)),
{
    let ghost all = roots_of(roots@);
    let ghost whole = parts_of(path@);
    let mut i: usize = 0;
    while i < roots.len()
        invariant
            i <= roots.len(),
            all == roots_of(roots@),
            whole == parts_of(path@),
            forall|j: int| 0 <= j < i ==> !lies_in(whole, #[trigger] all[j]),
        decreases roots.len() - i,
    {
        match &roots[i] {
            Some(root) => {
                assert(all[i as int] == Some(parts_of(root@)));
                if starts_with_parts(path, root) {
                    assert(lies_in(whole, all[i as int]));
                    return true;
                }
            },
            None => {
                assert(all[i as int] is None);
            },
        }
        i = i + 1;
    }
    false
}

/// Decides whether the file that `asked` names may be read. `found` is its full path, or why there
/// is none; `roots` are the full paths of the folders that are looked in, `None` for one that could
/// not be opened.
pub fn allowed_path(
    asked: &str,
    found: Result<FullPath, String>,
    roots: &Vec<Option<Vec<Vec<u8>>>>,
) -> (r: Result<FullPath, String>)
    ensures
        found_path(r) == permitted(asked@, found_path(found), roots_of(roots@)),
{
    if asked.is_empty() {
        return Err("no path in the request".to_owned());
    }
    match found {
        Ok(path) => {
            if is_in_some(&path.parts, roots) {
                Ok(path)
            } else {
                Err(cat2(&path.label, " is outside the folders crashdoctor looks at"))
            }
        },
        Err(why) => Err(cat4("could not open ", asked, ": ", &why)),
    }
}

/// The reply to who asks for a file that may not be read.
pub fn refused(why: &str) -> (r: Reply)
    ensures
        r@ == json_reply(bad_answer(why@)),
{
    reply_json(Answer::bad(why))
}

/// The reply on a file that was read, or could not be.
pub open spec fn file_reply_of(path: Seq<char>, read: Result<Vec<u8>, String>) -> ReplyView {
    match read {
        Ok(bytes) => json_reply(answer_of(line_feeds(utf8_lossy(bytes@)), path)),
        Err(why) => json_reply(bad_answer("could not read "@ + path + ": "@ + why@)),
    }
}

/// Answers for the file at `path`, of which `read` holds the bytes, or why there are none.
pub fn file_reply(path: &str, read: &Result<Vec<u8>, String>) -> (r: Reply)
    ensures
        r@ == file_reply_of(path@, *read),
{
    match read {
        Ok(bytes) => {
            let text = to_line_feeds(&from_utf8_lossy(bytes));
            reply_json(diagnose_text(&text, path))
        },
        Err(why) => reply_json(Answer::bad(&cat4("could not read ", path, ": ", why))),
    }
}

} // verus!

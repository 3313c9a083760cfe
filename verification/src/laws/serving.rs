//! What holds of the answers that the page gets.
use vstd::prelude::*;
use crate::number::{decimal, hex_value};
use crate::report::report_of;
use crate::text::{
    at, before_first, cut_at, find_of, lead, lemma_find, lemma_lead, pieces, replaced, CharSet,
};
use crate::ui::answer::{
    action_of, answer_of, guarded_path, lies_in, lies_in_some, own_host, page_url, permitted,
    target_path, ActionView, ContentKind, FullPathView, ReplyView, TOKEN_MARK,
};
use crate::ui::request::{query_of, query_pair, value_among, RequestView};
use crate::ui::token::{law_token_is_hex, token_of};

verus! {

/// Who does not name this server as the host is refused, whatever else the request says.
pub proof fn law_other_hosts_are_refused(
    req: RequestView,
    token: Seq<char>,
    port: nat,
    page: Seq<char>,
)
    requires
        !own_host(req.host, port),
    ensures
        action_of(req, token, port, page) is Send,
        action_of(req, token, port, page)->Send_0.status == 403,
        action_of(req, token, port, page)->Send_0.kind == ContentKind::Text,
{
}

/// Reports are listed, looked for and diagnosed for no one without the secret in the header: what
/// only the page may ask for is refused then.
pub proof fn law_secret_guards_the_reports(
    req: RequestView,
    token: Seq<char>,
    port: nat,
    page: Seq<char>,
)
    requires
        req.token != Some(token),
    ensures
        action_of(req, token, port, page) is Send,
        guarded_path(target_path(req.target)) ==> action_of(
            req,
            token,
            port,
            page,
        )->Send_0.status == 403,
        action_of(req, token, port, page)->Send_0.kind == ContentKind::Json ==> action_of(
            req,
            token,
            port,
            page,
        )->Send_0.status == 403,
{
    lemma_page_is_not_guarded();
}

proof fn lemma_page_is_not_guarded()
    ensures
        !guarded_path("/"@),
{
    reveal_strlit("/");
    reveal_strlit("/api/recent");
    reveal_strlit("/api/diagnose-text");
    reveal_strlit("/api/diagnose-file");
    assert("/"@.len() == 1);
    assert("/api/recent"@.len() == 11);
    assert("/api/diagnose-text"@.len() == 18);
    assert("/api/diagnose-file"@.len() == 18);
}

/// The page, which carries the secret, goes to no one who does not know it.
pub proof fn law_secret_guards_the_page(
    req: RequestView,
    token: Seq<char>,
    port: nat,
    page: Seq<char>,
)
    ensures
        action_of(req, token, port, page) matches ActionView::Send(reply) ==> reply.kind
            == ContentKind::Html ==> {
            &&& own_host(req.host, port)
            &&& query_of(req.target, "t"@) == Some(token)
            &&& reply.status == 200
            &&& reply.body == replaced(page, TOKEN_MARK@, token)
        },
{
}

/// Whatever is asked, a reply has one of four statuses.
pub proof fn law_replies_have_known_statuses(
    req: RequestView,
    token: Seq<char>,
    port: nat,
    page: Seq<char>,
)
    ensures
        action_of(req, token, port, page) matches ActionView::Send(reply) ==> reply.status == 200
            || reply.status == 400 || reply.status == 403 || reply.status == 404,
{
    reveal(answer_of);
}

proof fn lemma_cut_at_sign(before: Seq<char>, sign: char, after: Seq<char>, t: Seq<char>)
    requires
        t == seq![sign],
        !before.contains(sign),
    ensures
        cut_at(before + t + after, t) == Some((before, after)),
{
    let s = before + t + after;
    let k = before.len() as int;
    lemma_find(s, t, 0);
    assert(s.subrange(k, k + 1) =~= t);
    assert(at(s, t, k));
    assert forall|j: int| 0 <= j < k implies !#[trigger] at(s, t, j) by {
        if at(s, t, j) {
            assert(s.subrange(j, j + 1)[0] == s[j]);
            assert(s[j] == before[j]);
            assert(before.contains(sign));
        }
    }
    assert(find_of(s, t) == Some(k));
    assert(s.take(k) =~= before);
    assert(s.skip(k + 1) =~= after);
}

proof fn lemma_lead_to_sign(before: Seq<char>, sign: char, after: Seq<char>)
    requires
        !before.contains(sign),
    ensures
        before_first(before + seq![sign] + after, CharSet::Just(sign)) == before,
{
    let s = before + seq![sign] + after;
    let set = CharSet::Just(sign);
    lemma_lead(s, set, false);
    let n = lead(s, set, false);
    if n < before.len() {
        assert(s[n as int] == before[n as int]);
        assert(before.contains(before[n as int]));
    }
    if n > before.len() {
        assert(s[before.len() as int] == sign);
    }
    assert(s.take(n as int) =~= before);
}

proof fn lemma_one_piece(s: Seq<char>, sign: char)
    requires
        !s.contains(sign),
    ensures
        pieces(s, CharSet::Just(sign)) == seq![s],
{
    let set = CharSet::Just(sign);
    lemma_lead(s, set, false);
    let n = lead(s, set, false);
    if n < s.len() {
        assert(s.contains(s[n as int]));
    }
}

/// The address that is printed opens the page: the request that a browser makes of it is answered
/// with the page.
pub proof fn law_printed_address_opens_the_page(
    req: RequestView,
    token: Seq<char>,
    port: nat,
    page: Seq<char>,
)
    requires
        !token.contains('&'),
        req.method == "GET"@,
        req.host is Some,
        page_url(token, port) == "http://"@ + req.host->0 + req.target,
        req.host->0 == "127.0.0.1:"@ + decimal(port),
    ensures
        action_of(req, token, port, page) == ActionView::Send(
            ReplyView {
                status: 200,
                kind: ContentKind::Html,
                body: replaced(page, TOKEN_MARK@, token),
            },
        ),
{
    reveal_strlit("http://127.0.0.1:");
    reveal_strlit("http://");
    reveal_strlit("127.0.0.1:");
    reveal_strlit("/?t=");
    reveal_strlit("/");
    reveal_strlit("?");
    reveal_strlit("t");
    reveal_strlit("=");
    let url = page_url(token, port);
    let host = req.host->0;
    let target = req.target;
    let front = "http://"@ + host;
    let want = "/?t="@ + token;
    assert(front =~= "http://127.0.0.1:"@ + decimal(port));
    assert(url =~= front + want);
    assert(target =~= url.skip(front.len() as int));
    assert(want =~= url.skip(front.len() as int));
    let query = "t"@ + "="@ + token;
    assert("/"@ =~= seq!['/']);
    assert("?"@ =~= seq!['?']);
    assert("="@ =~= seq!['=']);
    assert("t"@ =~= seq!['t']);
    assert(target =~= "/"@ + "?"@ + query);
    assert(target =~= "/"@ + seq!['?'] + query);
    assert(!"/"@.contains('?'));
    assert(!"t"@.contains('='));
    lemma_lead_to_sign("/"@, '?', query);
    lemma_cut_at_sign("/"@, '?', query, "?"@);
    assert(!query.contains('&')) by {
        if query.contains('&') {
            let i = choose|i: int| 0 <= i < query.len() && query[i] == '&';
            assert(i >= 2);
            assert(token[i - 2] == '&');
            assert(token.contains('&'));
        }
    }
    lemma_one_piece(query, '&');
    lemma_cut_at_sign("t"@, '=', token, "="@);
    assert(query_pair(query) == ("t"@, token));
    assert(value_among(seq![query], "t"@) == Some(token));
    assert(own_host(req.host, port));
}

/// A secret that the server makes can stand in an address.
pub proof fn law_secret_fits_an_address(seed: u64)
    ensures
        !token_of(seed).contains('&'),
{
    law_token_is_hex(seed);
    if token_of(seed).contains('&') {
        let i = choose|i: int| 0 <= i < token_of(seed).len() && token_of(seed)[i] == '&';
        assert(hex_value(token_of(seed)[i]) is Some);
    }
}

/// A file may be read exactly where a path was asked for, leads to a file, and leads into one of the
/// folders that could be opened, component by component; and it is that file then.
pub proof fn law_only_files_of_the_folders_are_read(
    asked: Seq<char>,
    found: Result<FullPathView, Seq<char>>,
    roots: Seq<Option<Seq<Seq<u8>>>>,
    path: FullPathView,
)
    ensures
        permitted(asked, found, roots) == Ok::<FullPathView, Seq<char>>(path) <==> {
            &&& asked.len() > 0
            &&& found == Ok::<FullPathView, Seq<char>>(path)
            &&& exists|i: int|
                0 <= i < roots.len() && #[trigger] roots[i] is Some && roots[i]->0.is_prefix_of(
                    path.parts,
                )
        },
{
    if lies_in_some(path.parts, roots) {
        let i = choose|i: int| 0 <= i < roots.len() && lies_in(path.parts, #[trigger] roots[i]);
        assert(roots[i] is Some);
    }
    if exists|i: int|
        0 <= i < roots.len() && #[trigger] roots[i] is Some && roots[i]->0.is_prefix_of(
            path.parts,
        ) {
        let i = choose|i: int|
            0 <= i < roots.len() && #[trigger] roots[i] is Some && roots[i]->0.is_prefix_of(
                path.parts,
            );
        assert(lies_in(path.parts, roots[i]));
    }
}

/// Who asks for no path is told so, whatever else holds.
pub proof fn law_empty_path_is_refused(
    found: Result<FullPathView, Seq<char>>,
    roots: Seq<Option<Seq<Seq<u8>>>>,
)
    ensures
        permitted(Seq::empty(), found, roots) == Err::<FullPathView, Seq<char>>(
            "no path in the request"@,
        ),
{
}

/// A text is answered with a diagnosis exactly where it is a report, and with an error otherwise.
pub proof fn law_reports_alone_are_diagnosed(text: Seq<char>, label: Seq<char>)
    ensures
        answer_of(text, label).status == 200 <==> report_of(text, label) is Ok,
        answer_of(text, label).status == 400 <==> report_of(text, label) is Err,
{
    reveal(answer_of);
}

} // verus!

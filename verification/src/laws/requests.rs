//! What holds of requests and of who may ask for what.
use vstd::prelude::*;
use vstd::utf8::encode_utf8;
use crate::laws::wording::{
    all_in, law_around_a_sign, law_cut_at_the_first, law_has, law_no_sign, law_trimmed_at_both_ends,
};
use crate::model::DiagnosisView;
use crate::number::{decimal, law_decimal_reads_back, lemma_decimal};
use crate::report::report_of;
use crate::rules::evaluation_of;
use crate::text::{
    ascii_lowered, at, cut_at, find_of, has, lemma_find, line_feeds, pieces, replaced, trimmed,
    utf8_lossy, words, CharSet,
};
use crate::ui::answer::{
    action_of, answer_of, exit_status, file_reply_of, permitted, reason_text, reply_head,
    target_path, ActionView, ContentKind, FullPathView, ReplyView, TOKEN_MARK,
};
use crate::ui::json::{diagnosis_object, error_object};
use crate::ui::options::{dirs_to_scan, ScanDir};
use crate::ui::request::{
    head_start, header_parts, query_of, value_among, with_header, HeadView, RequestView,
};
use crate::ui::token::{next_state, seed_of, state_after, token_of};

verus! {

/// The paths and methods differ from each other.
proof fn lemma_paths_differ()
    ensures
        "/"@ != "/api/recent"@,
        "/"@ != "/api/diagnose-text"@,
        "/"@ != "/api/diagnose-file"@,
        "/api/recent"@ != "/api/diagnose-text"@,
        "/api/recent"@ != "/api/diagnose-file"@,
        "/api/diagnose-text"@ != "/api/diagnose-file"@,
        "GET"@ != "POST"@,
{
    reveal_strlit("/");
    reveal_strlit("/api/recent");
    reveal_strlit("/api/diagnose-text");
    reveal_strlit("/api/diagnose-file");
    reveal_strlit("GET");
    reveal_strlit("POST");
    assert("/"@.len() == 1);
    assert("/api/recent"@.len() == 11);
    assert("/api/diagnose-text"@.len() == 18);
    assert("/api/diagnose-file"@.len() == 18);
    assert("/api/diagnose-text"@[14] == 't');
    assert("/api/diagnose-file"@[14] == 'f');
    assert("GET"@.len() == 3);
    assert("POST"@.len() == 4);
}

/// The server answers under its number and under the name of the machine itself, at its own port,
/// and under no other.
pub proof fn law_names_of_the_server(
    req: RequestView,
    token: Seq<char>,
    port: nat,
    page: Seq<char>,
)
    ensures
        req.host != Some("127.0.0.1:"@ + decimal(port)) && req.host != Some(
            "localhost:"@ + decimal(port),
        ) ==> {
            let action = action_of(req, token, port, page);
            action is Send && action->Send_0.status == 403 && action->Send_0.kind
                == ContentKind::Text
        },
        action_of(
            RequestView { host: Some("127.0.0.1:"@ + decimal(port)), ..req },
            token,
            port,
            page,
        ) == action_of(
            RequestView { host: Some("localhost:"@ + decimal(port)), ..req },
            token,
            port,
            page,
        ),
{
}

/// Whether a request names the server and brings the secret.
pub open spec fn trusted_request(req: RequestView, token: Seq<char>, port: nat) -> bool {
    &&& req.host == Some("127.0.0.1:"@ + decimal(port)) || req.host == Some(
        "localhost:"@ + decimal(port),
    )
    &&& req.token == Some(token)
}

/// Who brings the secret is served: the list, a diagnosis of a text that is sent, and of a file that
/// is named.
pub proof fn law_secret_opens_the_reports(
    req: RequestView,
    token: Seq<char>,
    port: nat,
    page: Seq<char>,
)
    requires
        trusted_request(req, token, port),
    ensures
        ({
            let path = target_path(req.target);
            let action = action_of(req, token, port, page);
            let body = utf8_lossy(req.body);
            &&& req.method == "GET"@ && path == "/api/recent"@ ==> action == ActionView::List
            &&& req.method == "POST"@ && path == "/api/diagnose-text"@ ==> action is Send
                && action->Send_0.kind == ContentKind::Json && action->Send_0.status == answer_of(
                body,
                "dropped report"@,
            ).status && action->Send_0.body == answer_of(body, "dropped report"@).body
            &&& req.method == "POST"@ && path == "/api/diagnose-file"@ && trimmed(body).len() > 0
                ==> action == ActionView::Locate(trimmed(body))
            &&& req.method == "POST"@ && path == "/api/diagnose-file"@ && trimmed(body).len() == 0
                ==> action is Send && action->Send_0.status == 400
        }),
{
    lemma_paths_differ();
}

/// Without the secret none of these is served, and with it none is by another method.
pub proof fn law_reports_are_guarded(
    req: RequestView,
    token: Seq<char>,
    port: nat,
    page: Seq<char>,
)
    requires
        req.host == Some("127.0.0.1:"@ + decimal(port)),
    ensures
        ({
            let path = target_path(req.target);
            let action = action_of(req, token, port, page);
            &&& req.token != Some(token) && (path == "/api/recent"@ || path == "/api/diagnose-text"@
                || path == "/api/diagnose-file"@) ==> action is Send && action->Send_0.status == 403
                && action->Send_0.body == error_object("missing or wrong token header"@)
            &&& req.method != "GET"@ && path == "/api/recent"@ ==> action is Send
                && action->Send_0.status == 403
            &&& req.method != "POST"@ && (path == "/api/diagnose-text"@ || path
                == "/api/diagnose-file"@) ==> action is Send && action->Send_0.status == 403
        }),
{
    lemma_paths_differ();
}

/// There is nothing under any other path, with the secret and without it.
pub proof fn law_nothing_elsewhere(
    req: RequestView,
    token: Seq<char>,
    port: nat,
    page: Seq<char>,
)
    requires
        req.host == Some("127.0.0.1:"@ + decimal(port)),
        target_path(req.target) != "/api/recent"@,
        target_path(req.target) != "/api/diagnose-text"@,
        target_path(req.target) != "/api/diagnose-file"@,
        target_path(req.target) != "/"@ || req.method != "GET"@,
    ensures
        action_of(req, token, port, page) is Send,
        action_of(req, token, port, page)->Send_0.status == 404,
{
}

/// The page goes to who brings the secret in the address, with the secret in the place of the mark;
/// the header does not count there.
pub proof fn law_page_by_the_address(
    req: RequestView,
    token: Seq<char>,
    port: nat,
    page: Seq<char>,
)
    requires
        req.host == Some("127.0.0.1:"@ + decimal(port)),
        req.method == "GET"@,
        target_path(req.target) == "/"@,
    ensures
        query_of(req.target, "t"@) == Some(token) ==> action_of(req, token, port, page)
            == ActionView::Send(
            ReplyView {
                status: 200,
                kind: ContentKind::Html,
                body: replaced(page, TOKEN_MARK@, token),
            },
        ),
        query_of(req.target, "t"@) != Some(token) ==> action_of(req, token, port, page) is Send
            && action_of(req, token, port, page)->Send_0.status == 403,
{
}

proof fn lemma_outside(s: Seq<char>, sign: char)
    requires
        !s.contains(sign),
    ensures
        all_in(s, CharSet::Just(sign), false),
{
    assert forall|k: int| 0 <= k < s.len() implies CharSet::Just(sign).has(#[trigger] s[k])
        == false by {
        assert(s.contains(s[k]));
    }
}

proof fn lemma_cut_sign(a: Seq<char>, sign: char, b: Seq<char>, t: Seq<char>)
    requires
        t == seq![sign],
        !a.contains(sign),
    ensures
        cut_at(a + t + b, t) == Some((a, b)),
{
    let s = a + t + b;
    let k = a.len() as int;
    lemma_find(s, t, 0);
    assert(s.subrange(k, k + 1) =~= t);
    assert(at(s, t, k));
    assert forall|j: int| 0 <= j < k implies !#[trigger] at(s, t, j) by {
        if at(s, t, j) {
            assert(s.subrange(j, j + 1)[0] == s[j]);
            assert(s[j] == a[j]);
            assert(a.contains(sign));
        }
    }
    assert(find_of(s, t) == Some(k));
    assert(s.take(k) =~= a);
    assert(s.skip(k + 1) =~= b);
}

proof fn lemma_no_cut(s: Seq<char>, sign: char, t: Seq<char>)
    requires
        t == seq![sign],
        !s.contains(sign),
    ensures
        cut_at(s, t) is None,
{
    law_cut_at_the_first(s, t);
    if has(s, t) {
        let i = choose|i: int| at(s, t, i);
        assert(s.subrange(i, i + 1)[0] == t[0]);
        assert(s[i] == sign);
        assert(s.contains(sign));
    }
}

/// The path of a target is what stands before the question mark, and the query what stands behind.
pub proof fn law_path_and_query(path: Seq<char>, query: Seq<char>, key: Seq<char>)
    requires
        !path.contains('?'),
    ensures
        target_path(path + seq!['?'] + query) == path,
        target_path(path) == path,
        query_of(path + seq!['?'] + query, key) == value_among(
            pieces(query, CharSet::Just('&')),
            key,
        ),
        query_of(path, key) is None,
{
    reveal_strlit("?");
    assert("?"@ =~= seq!['?']);
    lemma_outside(path, '?');
    law_around_a_sign(path, '?', query, CharSet::Just('?'));
    law_no_sign(path, CharSet::Just('?'));
    lemma_cut_sign(path, '?', query, "?"@);
    lemma_no_cut(path, '?', "?"@);
}

/// The first pair of a query that has the name counts, and a pair without a sign has no value.
pub proof fn law_first_pair_counts(
    name: Seq<char>,
    value: Seq<char>,
    rest: Seq<Seq<char>>,
    key: Seq<char>,
)
    requires
        !name.contains('='),
    ensures
        value_among(seq![name + seq!['='] + value] + rest, name) == Some(value),
        name != key ==> value_among(seq![name + seq!['='] + value] + rest, key) == value_among(
            rest,
            key,
        ),
        value_among(seq![name] + rest, name) == Some(Seq::<char>::empty()),
        name != key ==> value_among(seq![name] + rest, key) == value_among(rest, key),
        value_among(Seq::<Seq<char>>::empty(), key) is None,
{
    reveal_strlit("=");
    reveal_strlit("");
    assert("="@ =~= seq!['=']);
    assert(""@ =~= Seq::<char>::empty());
    lemma_cut_sign(name, '=', value, "="@);
    lemma_no_cut(name, '=', "="@);
    let pair = name + seq!['='] + value;
    assert((seq![pair] + rest)[0] == pair);
    assert((seq![pair] + rest).skip(1) =~= rest);
    assert((seq![name] + rest)[0] == name);
    assert((seq![name] + rest).skip(1) =~= rest);
}

proof fn lemma_header(name: Seq<char>, value: Seq<char>)
    requires
        !name.contains(':'),
        value.len() > 0,
        !CharSet::White.has(value[0]),
        !CharSet::White.has(value.last()),
    ensures
        header_parts(name + seq![':'] + (seq![' '] + value + seq!['\r', '\n'])) == (
            ascii_lowered(name),
            value,
        ),
{
    reveal_strlit(":");
    assert(":"@ =~= seq![':']);
    let end = seq!['\r', '\n'];
    let line = name + seq![':'] + (seq![' '] + value + end);
    let kept = name + seq![':'] + (seq![' '] + value);
    assert(line =~= kept + end);
    assert(kept.last() == value.last());
    assert(all_in(end, CharSet::White, true));
    crate::laws::wording::lemma_trailing(kept, end, CharSet::White, true);
    assert(line.take(line.len() - 2) =~= kept);
    lemma_cut_sign(name, ':', seq![' '] + value, ":"@);
    let none = Seq::<char>::empty();
    law_trimmed_at_both_ends(seq![' '], value, none, CharSet::White, true);
    assert(seq![' '] + value + none =~= seq![' '] + value);
}

/// The headers that count: the host, the secret and the length of the body. Their names may be
/// written in any case, and a length that is no number is none. Other headers do not count.
pub proof fn law_headers_that_count(h: HeadView, name: Seq<char>, value: Seq<char>)
    requires
        !name.contains(':'),
        value.len() > 0,
        !CharSet::White.has(value[0]),
        !CharSet::White.has(value.last()),
    ensures
        ({
            let line = name + seq![':'] + (seq![' '] + value + seq!['\r', '\n']);
            let next = with_header(h, line);
            let key = ascii_lowered(name);
            &&& key == "host"@ ==> next == (HeadView { host: Some(value), ..h })
            &&& key == "x-crashdoctor-token"@ ==> next == (HeadView { token: Some(value), ..h })
            &&& key == "content-length"@ ==> next.host == h.host && next.token == h.token
                && next.method == h.method && next.target == h.target
            &&& key != "host"@ && key != "x-crashdoctor-token"@ && key != "content-length"@ ==> next
                == h
        }),
{
    lemma_header(name, value);
    lemma_header_names();
}

proof fn lemma_header_names()
    ensures
        "host"@ != "x-crashdoctor-token"@,
        "host"@ != "content-length"@,
        "x-crashdoctor-token"@ != "content-length"@,
{
    reveal_strlit("host");
    reveal_strlit("x-crashdoctor-token");
    reveal_strlit("content-length");
    assert("host"@.len() == 4);
    assert("x-crashdoctor-token"@.len() == 19);
    assert("content-length"@.len() == 14);
}

/// The length of a body is the number that its header gives.
pub proof fn law_length_of_a_body(h: HeadView, name: Seq<char>, n: nat)
    requires
        !name.contains(':'),
        ascii_lowered(name) == "content-length"@,
        n <= usize::MAX,
    ensures
        with_header(h, name + seq![':'] + (seq![' '] + decimal(n) + seq!['\r', '\n'])).length == n,
{
    lemma_decimal(n);
    let digits = decimal(n);
    assert(crate::text::ascii_digit(digits[0]));
    assert(crate::text::ascii_digit(digits[digits.len() - 1]));
    lemma_header(name, digits);
    lemma_header_names();
    law_decimal_reads_back(n, usize::MAX as nat);
}

/// The first line gives the method and the target: its first two words.
pub proof fn law_first_line(first: Seq<char>)
    ensures
        words(first).len() >= 2 ==> head_start(first).method == words(first)[0] && head_start(
            first,
        ).target == words(first)[1],
        words(first).len() == 1 ==> head_start(first).method == words(first)[0] && head_start(
            first,
        ).target == seq!['/'],
        words(first).len() == 0 ==> head_start(first).method.len() == 0,
        head_start(first).host is None && head_start(first).token is None && head_start(first).length
            == 0,
{
    reveal_strlit("/");
    reveal_strlit("");
    assert("/"@ =~= seq!['/']);
}

/// A path that leads out of the folders is refused by its name, and one that leads nowhere with the
/// reason.
pub proof fn law_refused_paths(
    asked: Seq<char>,
    path: FullPathView,
    why: Seq<char>,
    roots: Seq<Option<Seq<Seq<u8>>>>,
)
    requires
        asked.len() > 0,
    ensures
        (forall|i: int|
            0 <= i < roots.len() ==> #[trigger] roots[i] is None || !roots[i]->0.is_prefix_of(
                path.parts,
            )) ==> permitted(asked, Ok(path), roots) is Err && path.label.is_prefix_of(
            permitted(asked, Ok(path), roots)->Err_0,
        ),
        permitted(asked, Err(why), roots) == Err::<FullPathView, Seq<char>>(
            "could not open "@ + asked + ": "@ + why,
        ),
{
    if forall|i: int|
        0 <= i < roots.len() ==> #[trigger] roots[i] is None || !roots[i]->0.is_prefix_of(
            path.parts,
        ) {
        assert(!crate::ui::answer::lies_in_some(path.parts, roots));
        let told = permitted(asked, Ok(path), roots)->Err_0;
        assert(path.label =~= told.subrange(0, path.label.len() as int));
    }
}

/// A report that is sent and one that is read from a file are answered alike, under their names, and
/// a file that cannot be read is answered with the reason.
pub proof fn law_files_are_answered(path: Seq<char>, read: Result<Vec<u8>, String>)
    ensures
        file_reply_of(path, read).kind == ContentKind::Json,
        read matches Ok(bytes) ==> file_reply_of(path, read).status == answer_of(
            line_feeds(utf8_lossy(bytes@)),
            path,
        ).status && file_reply_of(path, read).body == answer_of(
            line_feeds(utf8_lossy(bytes@)),
            path,
        ).body,
        read matches Err(why) ==> file_reply_of(path, read).status == 400 && file_reply_of(
            path,
            read,
        ).body == error_object("could not read "@ + path + ": "@ + why@),
{
}

/// A report is answered with its diagnosis, which exits with nothing where a culprit is named and
/// with two where none is; anything else with the reason.
pub proof fn law_answers(text: Seq<char>, label: Seq<char>)
    ensures
        report_of(text, label) matches Ok(r) ==> {
            let d = evaluation_of(r).diagnosis;
            answer_of(text, label).body == diagnosis_object(
                d,
                label,
                if d.culprit is Some {
                    0
                } else {
                    2
                },
            )
        },
        report_of(text, label) matches Err(e) ==> answer_of(text, label).body == error_object(
            crate::report::error_text(e),
        ),
{
    reveal(answer_of);
}

/// The exit status tells whether a culprit is named.
pub proof fn law_exit_status(d: DiagnosisView)
    ensures
        d.culprit is Some <==> exit_status(d) == 0,
        d.culprit is None <==> exit_status(d) == 2,
{
}

/// The head of a reply starts with the status and ends with a blank line. It gives the kind and the
/// length of the body in bytes.
pub proof fn law_head_of_a_reply(r: ReplyView)
    ensures
        ("HTTP/1.1 "@ + decimal(r.status) + " "@ + reason_text(r.status)).is_prefix_of(
            reply_head(r),
        ),
        has(reply_head(r), "\r\nContent-Type: "@ + crate::ui::answer::kind_label(r.kind)),
        has(
            reply_head(r),
            "\r\nContent-Length: "@ + decimal(crate::ui::answer::byte_count(r.body)),
        ),
        "\r\nCache-Control: no-store\r\nConnection: close\r\n\r\n"@.is_suffix_of(reply_head(r)),
        encode_utf8(r.body).len() <= usize::MAX ==> crate::ui::answer::byte_count(r.body)
            == encode_utf8(r.body).len(),
{
    let head = reply_head(r);
    let front = "HTTP/1.1 "@ + decimal(r.status) + " "@ + reason_text(r.status);
    let kind = "\r\nContent-Type: "@ + crate::ui::answer::kind_label(r.kind);
    let length = "\r\nContent-Length: "@ + decimal(crate::ui::answer::byte_count(r.body));
    let end = "\r\nCache-Control: no-store\r\nConnection: close\r\n\r\n"@;
    assert(head =~= front + kind + (length + end));
    assert(head =~= (front + kind) + length + end);
    law_has(front, kind, length + end, head);
    law_has(front + kind, length, end, head);
    assert(front =~= head.subrange(0, front.len() as int));
    assert(end =~= head.subrange(head.len() - end.len(), head.len() as int));
}

/// The reasons that go with the statuses.
pub proof fn law_reasons_of_statuses(status: nat)
    ensures
        status == 200 <==> reason_text(status) == "OK"@,
        status == 400 ==> reason_text(status) == "Bad Request"@,
        status == 403 ==> reason_text(status) == "Forbidden"@,
        status == 404 ==> reason_text(status) == "Not Found"@,
        status == 405 ==> reason_text(status) == "Method Not Allowed"@,
{
    reveal_strlit("OK");
    reveal_strlit("Bad Request");
    reveal_strlit("Forbidden");
    reveal_strlit("Not Found");
    reveal_strlit("Method Not Allowed");
    reveal_strlit("Error");
    assert("OK"@.len() == 2);
    assert("Bad Request"@.len() == 11);
    assert("Forbidden"@.len() == 9);
    assert("Not Found"@.len() == 9);
    assert("Method Not Allowed"@.len() == 18);
    assert("Error"@.len() == 5);
}

/// The folders that are searched: the one in the home, where there is one, then those here, and the
/// one that was asked for last.
pub proof fn law_folders_that_are_searched(home: bool, extra: bool)
    ensures
        home ==> dirs_to_scan(home, extra)[0] is HomeReports,
        dirs_to_scan(home, extra).contains(ScanDir::HomeReports) <==> home,
        dirs_to_scan(home, extra).contains(ScanDir::Extra) <==> extra,
        extra ==> dirs_to_scan(home, extra).last() is Extra,
        dirs_to_scan(home, extra).contains(ScanDir::LocalReports),
        dirs_to_scan(home, extra).contains(ScanDir::Here),
        dirs_to_scan(home, extra).len() == 2 + (if home {
            1int
        } else {
            0
        }) + (if extra {
            1int
        } else {
            0
        }),
        !home ==> dirs_to_scan(home, extra)[0] is LocalReports && dirs_to_scan(home, extra)[1] is Here,
{
    let all = dirs_to_scan(home, extra);
    let n: int = if home {
        1
    } else {
        0
    };
    assert(all[n] == ScanDir::LocalReports);
    assert(all[n + 1] == ScanDir::Here);
    if home {
        assert(all[0] == ScanDir::HomeReports);
    }
    if extra {
        assert(all[n + 2] == ScanDir::Extra);
    }
}

/// The generator behind the secret: it mixes bit by bit, so that the states of two seeds differ by
/// the state of their difference, and it never falls to zero from anything else.
pub proof fn law_generator(a: u64, b: u64)
    ensures
        next_state(a ^ b) == next_state(a) ^ next_state(b),
        next_state(a ^ 1u64) == next_state(a) ^ 1082269761u64,
        a != 0 ==> next_state(a) != 0,
{
    let x = a ^ b;
    assert(next_state(a ^ b) == next_state(a) ^ next_state(b)) by {
        assert(({
            let p = (a ^ b) ^ ((a ^ b) << 13u64);
            let q = p ^ (p >> 7u64);
            q ^ (q << 17u64)
        }) == (({
            let p = a ^ (a << 13u64);
            let q = p ^ (p >> 7u64);
            q ^ (q << 17u64)
        }) ^ ({
            let p = b ^ (b << 13u64);
            let q = p ^ (p >> 7u64);
            q ^ (q << 17u64)
        }))) by (bit_vector);
    }
    assert(next_state(a ^ 1u64) == next_state(a) ^ 1082269761u64) by {
        assert(({
            let p = (a ^ 1u64) ^ ((a ^ 1u64) << 13u64);
            let q = p ^ (p >> 7u64);
            q ^ (q << 17u64)
        }) == (({
            let p = a ^ (a << 13u64);
            let q = p ^ (p >> 7u64);
            q ^ (q << 17u64)
        }) ^ 1082269761u64)) by (bit_vector);
    }
    assert(a != 0 ==> next_state(a) != 0) by {
        assert(a != 0 ==> ({
            let p = a ^ (a << 13u64);
            let q = p ^ (p >> 7u64);
            q ^ (q << 17u64)
        }) != 0) by (bit_vector);
    }
}

/// The secret of the next state is that of this one, one digit on.
pub proof fn law_digits_of_the_secret(seed: u64, i: int)
    requires
        0 <= i < token_of(seed).len() - 1,
    ensures
        token_of(next_state(seed))[i] == token_of(seed)[i + 1],
        token_of(seed)[0] == crate::number::hex_digit((next_state(seed) % 16) as nat),
        token_of(seed).len() == 16,
{
    lemma_states(seed, (i + 1) as nat);
    reveal_with_fuel(state_after, 2);
    assert(state_after(seed, 1) == next_state(seed));
}

proof fn lemma_states(seed: u64, n: nat)
    ensures
        state_after(next_state(seed), n) == state_after(seed, n + 1),
    decreases n,
{
    if n > 0 {
        lemma_states(seed, (n - 1) as nat);
    } else {
        reveal_with_fuel(state_after, 2);
    }
}

/// The seed takes the time as it is, and the number of the process in its upper bits.
pub proof fn law_seed(nanos: u128, pid: u32, other: u32)
    ensures
        seed_of(nanos, 0) == nanos as u64,
        seed_of(nanos, pid) ^ seed_of(nanos, other) == ((pid as u64) << 48u64) ^ ((other as u64)
            << 48u64),
{
    let t = nanos as u64;
    let p = pid as u64;
    let q = other as u64;
    assert(t ^ (0u64 << 48u64) == t) by (bit_vector);
    assert((t ^ (p << 48u64)) ^ (t ^ (q << 48u64)) == (p << 48u64) ^ (q << 48u64)) by (bit_vector);
}

} // verus!

//! Requests of the browser, read line by line.
use vstd::prelude::*;
use crate::number::{parse_unsigned, parsed};
use crate::text::{
    ascii_lowered, cut_at, pieces, same, split, split_once, split_words, text_of, texts,
    to_ascii_lower, trim, trim_end_of, trim_end_set, trimmed, words, CharSet,
};

verus! {

/// The longest body that is read.
pub const MAX_BODY: usize = 8_388_608;

/// Why a request is not read to its end.
#[derive(Debug, Clone, Copy, PartialEq, Eq, Structural)]
pub enum RequestError {
    Empty,
    TooBig,
}

pub open spec fn request_error_text(e: RequestError) -> Seq<char> {
    match e {
        RequestError::Empty => "empty request"@,
        RequestError::TooBig => "that request body is too big"@,
    }
}

impl RequestError {
    pub fn message(self) -> (r: &'static str)
        ensures
            r@ == request_error_text(self),
    {
        match self {
            RequestError::Empty => "empty request",
            RequestError::TooBig => "that request body is too big",
        }
    }
}

/// What the head of a request says.
pub struct Head {
    pub method: String,
    pub target: String,
    pub host: Option<String>,
    pub token: Option<String>,
    pub length: usize,
}

pub struct HeadView {
    pub method: Seq<char>,
    pub target: Seq<char>,
    pub host: Option<Seq<char>>,
    pub token: Option<Seq<char>>,
    pub length: nat,
}

impl View for Head {
    type V = HeadView;

    open spec fn view(&self) -> HeadView {
        HeadView {
            method: self.method@,
            target: self.target@,
            host: text_of(self.host),
            token: text_of(self.token),
            length: self.length as nat,
        }
    }
}

/// The head after its first line: the method and the target, no header yet.
pub open spec fn head_start(first: Seq<char>) -> HeadView {
    let w = words(first);
    HeadView {
        method: if w.len() > 0 {
            w[0]
        } else {
            ""@
        },
        target: if w.len() > 1 {
            w[1]
        } else {
            "/"@
        },
        host: None,
        token: None,
        length: 0,
    }
}

/// A line without white space at its end, the line break included.
pub open spec fn header_line(line: Seq<char>) -> Seq<char> {
    trim_end_of(line, CharSet::White, true)
}

/// The name and the value of a header.
pub open spec fn header_parts(line: Seq<char>) -> (Seq<char>, Seq<char>) {
    match cut_at(header_line(line), ":"@) {
        Some((name, value)) => (ascii_lowered(name), trimmed(value)),
        None => (ascii_lowered(header_line(line)), trimmed(""@)),
    }
}

/// The head with one more header. The last of several with one name counts.
pub open spec fn with_header(h: HeadView, line: Seq<char>) -> HeadView {
    let (name, value) = header_parts(line);
    if name == "host"@ {
        HeadView { host: Some(value), ..h }
    } else if name == "x-crashdoctor-token"@ {
        HeadView { token: Some(value), ..h }
    } else if name == "content-length"@ {
        HeadView {
            length: match parsed(value, usize::MAX as nat) {
                Some(n) => n,
                None => 0,
            },
            ..h
        }
    } else {
        h
    }
}

/// Of two headers with one name the later counts.
pub proof fn law_last_header_counts(h: HeadView, a: Seq<char>, b: Seq<char>)
    requires
        header_parts(a).0 == header_parts(b).0,
    ensures
        with_header(with_header(h, a), b) == with_header(h, b),
{
}

/// Headers with different names may come in any order.
pub proof fn law_headers_in_any_order(h: HeadView, a: Seq<char>, b: Seq<char>)
    requires
        header_parts(a).0 != header_parts(b).0,
    ensures
        with_header(with_header(h, a), b) == with_header(with_header(h, b), a),
{
}

impl Head {
    /// Reads the first line.
    pub fn new(first: &str) -> (h: Head)
        ensures
            h@ == head_start(first@),
    {
        let w = split_words(first);
        let ghost all = words(first@);
        let method = if w.len() > 0 {
            assert(all[0] == w@[0]@);
            w[0].clone()
        } else {
            "".to_owned()
        };
        let target = if w.len() > 1 {
            assert(all[1] == w@[1]@);
            w[1].clone()
        } else {
            "/".to_owned()
        };
        Head { method, target, host: None, token: None, length: 0 }
    }

    /// Reads the next line. `false` where it is blank: the head ends there.
    pub fn add(&mut self, line: &str) -> (more: bool)
        ensures
            more == (header_line(line@).len() > 0),
            final(self)@ == if more {
                with_header(old(self)@, line@)
            } else {
                old(self)@
            },
    {
        let line = trim_end_set(line, CharSet::White, true);
        if line.is_empty() {
            return false;
        }
        let (name, value) = match split_once(line, ":") {
            Some((name, value)) => (name, value),
            None => (line, ""),
        };
        let name = to_ascii_lower(name);
        let value = trim(value);
        if same(&name, "host") {
            self.host = Some(value.to_owned());
        } else if same(&name, "x-crashdoctor-token") {
            self.token = Some(value.to_owned());
        } else if same(&name, "content-length") {
            self.length = match parse_unsigned(value, usize::MAX as u64) {
                Some(n) => n as usize,
                None => 0,
            };
        }
        true
    }

    /// How long the body is, unless that is too much.
    pub fn body_length(&self) -> (r: Result<usize, RequestError>)
        ensures
            r == if self@.length <= MAX_BODY {
                Ok::<usize, RequestError>(self.length)
            } else {
                Err(RequestError::TooBig)
            },
    {
        if self.length > MAX_BODY {
            Err(RequestError::TooBig)
        } else {
            Ok(self.length)
        }
    }

    /// The request with its body.
    pub fn with_body(self, body: Vec<u8>) -> (r: Request)
        ensures
            r@ == (RequestView {
                method: self@.method,
                target: self@.target,
                host: self@.host,
                token: self@.token,
                body: body@,
            }),
    {
        Request {
            method: self.method,
            target: self.target,
            host: self.host,
            token: self.token,
            body,
        }
    }
}

/// A request of the browser.
pub struct Request {
    pub method: String,
    pub target: String,
    pub host: Option<String>,
    pub token: Option<String>,
    pub body: Vec<u8>,
}

pub struct RequestView {
    pub method: Seq<char>,
    pub target: Seq<char>,
    pub host: Option<Seq<char>>,
    pub token: Option<Seq<char>>,
    pub body: Seq<u8>,
}

impl View for Request {
    type V = RequestView;

    open spec fn view(&self) -> RequestView {
        RequestView {
            method: self.method@,
            target: self.target@,
            host: text_of(self.host),
            token: text_of(self.token),
            body: self.body@,
        }
    }
}

/// The name and the value of a pair in a query.
pub open spec fn query_pair(pair: Seq<char>) -> (Seq<char>, Seq<char>) {
    match cut_at(pair, "="@) {
        Some((name, value)) => (name, value),
        None => (pair, ""@),
    }
}

/// The value of the first pair with the name `key`.
pub open spec fn value_among(pairs: Seq<Seq<char>>, key: Seq<char>) -> Option<Seq<char>>
    decreases pairs.len(),
{
    if pairs.len() == 0 {
        None
    } else if query_pair(pairs[0]).0 == key {
        Some(query_pair(pairs[0]).1)
    } else {
        value_among(pairs.skip(1), key)
    }
}

/// The value that the query of a target gives to `key`.
pub open spec fn query_of(target: Seq<char>, key: Seq<char>) -> Option<Seq<char>> {
    match cut_at(target, "?"@) {
        Some((_, query)) => value_among(pieces(query, CharSet::Just('&')), key),
        None => None,
    }
}

pub fn query_value(target: &str, key: &str) -> (r: Option<String>)
    ensures
        text_of(r) == query_of(target@, key@),
{
    let query = match split_once(target, "?") {
        Some((_, query)) => query,
        None => {
            return None;
        },
    };
    let pairs = split(query, CharSet::Just('&'));
    let ghost all = pieces(query@, CharSet::Just('&'));
    let mut i: usize = 0;
    assert(all.skip(0) =~= all);
    while i < pairs.len()
        invariant
            i <= pairs.len(),
            all == texts(pairs@),
            query_of(target@, key@) == value_among(all, key@),
            value_among(all, key@) == value_among(all.skip(i as int), key@),
        decreases pairs.len() - i,
    {
        let pair: &str = &pairs[i];
        assert(all.skip(i as int)[0] == pair@);
        assert(all.skip(i as int).skip(1) =~= all.skip(i + 1));
        let (name, value) = match split_once(pair, "=") {
            Some((name, value)) => (name, value),
            None => (pair, ""),
        };
        if same(name, key) {
            return Some(value.to_owned());
        }
        i = i + 1;
    }
    None
}

} // verus!

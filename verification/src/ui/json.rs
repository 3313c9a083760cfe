//! Diagnoses and errors as JSON.
use vstd::prelude::*;
use crate::model::{confidence_face, confidence_label, Diagnosis, DiagnosisView};
use crate::number::{decimal, decimal_text, hex_char, hex_digit, hex_value, lemma_hex_digit};
use crate::text::{cat3, chars, join, joined, push_text, text_or, texts};

verus! {

/// How a character stands between the quotes of a JSON string.
pub open spec fn escape(c: char) -> Seq<char> {
    if c == '"' {
        seq!['\\', '"']
    } else if c == '\\' {
        seq!['\\', '\\']
    } else if c == '\n' {
        seq!['\\', 'n']
    } else if c == '\r' {
        seq!['\\', 'r']
    } else if c == '\t' {
        seq!['\\', 't']
    } else if (c as u32) < 0x20 {
        seq![
            '\\',
            'u',
            '0',
            '0',
            hex_digit(c as nat / 16),
            hex_digit(c as nat % 16),
        ]
    } else {
        seq![c]
    }
}

/// What stands between the quotes of the JSON string of `s`.
pub open spec fn escaped(s: Seq<char>) -> Seq<char>
    decreases s.len(),
{
    if s.len() == 0 {
        Seq::empty()
    } else {
        escape(s[0]) + escaped(s.skip(1))
    }
}

/// `s` as a JSON string.
pub open spec fn json_text(s: Seq<char>) -> Seq<char> {
    seq!['"'] + escaped(s) + seq!['"']
}

fn push_escape(out: &mut String, c: char)
    ensures
        final(out)@ == old(out)@ + escape(c),
{
    let ghost start = out@;
    if c == '"' {
        out.push('\\');
        out.push('"');
    } else if c == '\\' {
        out.push('\\');
        out.push('\\');
    } else if c == '\n' {
        out.push('\\');
        out.push('n');
    } else if c == '\r' {
        out.push('\\');
        out.push('r');
    } else if c == '\t' {
        out.push('\\');
        out.push('t');
    } else if (c as u32) < 0x20 {
        let code: u8 = c as u8;
        out.push('\\');
        out.push('u');
        out.push('0');
        out.push('0');
        out.push(hex_char(code / 16));
        out.push(hex_char(code % 16));
    } else {
        out.push(c);
    }
    assert(out@ =~= start + escape(c));
}

pub fn json_str(text: &str) -> (r: String)
    ensures
        r@ == json_text(text@),
{
    let v = chars(text);
    let ghost all = text@;
    let mut out = String::new();
    out.push('"');
    let mut i: usize = 0;
    assert(all.skip(0) =~= all);
    assert(out@ + escaped(all) =~= seq!['"'] + escaped(all));
    while i < v.len()
        invariant
            i <= v.len(),
            v@ == all,
            out@ + escaped(all.skip(i as int)) == seq!['"'] + escaped(all),
        decreases v.len() - i,
    {
        let ghost rest = all.skip(i as int);
        let ghost before = out@;
        push_escape(&mut out, v[i]);
        assert(rest.skip(1) =~= all.skip(i + 1));
        assert(out@ + escaped(all.skip(i + 1)) =~= before + (escape(rest[0]) + escaped(
            rest.skip(1),
        )));
        i = i + 1;
    }
    assert(out@ + escaped(all.skip(i as int)) =~= out@);
    out.push('"');
    assert(out@ =~= json_text(text@));
    out
}

/// An error as JSON.
pub open spec fn error_object(why: Seq<char>) -> Seq<char> {
    "{\"empty\":true,\"error\":"@ + json_text(why) + "}"@
}

pub fn error_json(why: &str) -> (r: String)
    ensures
        r@ == error_object(why@),
{
    cat3("{\"empty\":true,\"error\":", &json_str(why), "}")
}

/// Lines as the elements of a JSON array.
pub open spec fn json_elements(lines: Seq<Seq<char>>) -> Seq<char> {
    joined(lines.map_values(|s: Seq<char>| json_text(s)), ","@)
}

fn json_lines(lines: &Vec<String>) -> (r: String)
    ensures
        r@ == json_elements(texts(lines@)),
{
    let ghost all = texts(lines@).map_values(|s: Seq<char>| json_text(s));
    let mut items: Vec<String> = Vec::new();
    let mut i: usize = 0;
    assert(texts(items@) =~= all.take(0));
    while i < lines.len()
        invariant
            i <= lines.len(),
            all == texts(lines@).map_values(|s: Seq<char>| json_text(s)),
            texts(items@) == all.take(i as int),
        decreases lines.len() - i,
    {
        push_text(&mut items, json_str(&lines[i]));
        assert(texts(items@) =~= all.take(i + 1));
        i = i + 1;
    }
    assert(all.take(i as int) =~= all);
    join(&items, ",")
}

/// A diagnosis as JSON.
pub open spec fn diagnosis_object(d: DiagnosisView, source: Seq<char>, exit: nat) -> Seq<char> {
    "{\"source\":"@ + json_text(source) + ",\"culprit\":"@ + json_text(
        text_or(d.culprit, "unknown"@),
    ) + ",\"cause\":"@ + json_text(d.cause) + ",\"evidence\":["@ + json_elements(d.evidence)
        + "],\"fix\":["@ + json_elements(d.fix) + "],\"dev_tip\":["@ + json_elements(d.dev_tip)
        + "],\"confidence\":"@ + json_text(confidence_label(d.confidence)) + ",\"face\":"@
        + json_text(confidence_face(d.confidence)) + ",\"exit\":"@ + decimal(exit)
        + ",\"empty\":false}"@
}

pub fn diagnosis_json(d: &Diagnosis, source: &str, exit: u8) -> (r: String)
    ensures
        r@ == diagnosis_object(d@, source@, exit as nat),
{
    let culprit = match &d.culprit {
        Some(s) => json_str(s),
        None => json_str("unknown"),
    };
    let mut r = "{\"source\":".to_owned();
    r.append(&json_str(source));
    r.append(",\"culprit\":");
    r.append(&culprit);
    r.append(",\"cause\":");
    r.append(&json_str(&d.cause));
    r.append(",\"evidence\":[");
    r.append(&json_lines(&d.evidence));
    r.append("],\"fix\":[");
    r.append(&json_lines(&d.fix));
    r.append("],\"dev_tip\":[");
    r.append(&json_lines(&d.dev_tip));
    r.append("],\"confidence\":");
    r.append(&json_str(d.confidence.label()));
    r.append(",\"face\":");
    r.append(&json_str(d.confidence.face()));
    r.append(",\"exit\":");
    r.append(&decimal_text(exit as u64));
    r.append(",\"empty\":false}");
    r
}

/// The text that stands between the quotes of a JSON string, read as JSON says. Only the escapes
/// that `escape` uses are read, and a control character or a quote ends the reading.
pub open spec fn unescaped(s: Seq<char>) -> Option<Seq<char>>
    decreases s.len(),
{
    if s.len() == 0 {
        Some(Seq::empty())
    } else if s[0] == '\\' {
        if s.len() >= 2 && s[1] == 'u' {
            if s.len() >= 6 && s[2] == '0' && s[3] == '0' {
                match (hex_value(s[4]), hex_value(s[5]), unescaped(s.skip(6))) {
                    (Some(a), Some(b), Some(rest)) => Some(seq![(a * 16 + b) as char] + rest),
                    _ => None,
                }
            } else {
                None
            }
        } else if s.len() >= 2 {
            let c = if s[1] == '"' || s[1] == '\\' {
                Some(s[1])
            } else if s[1] == 'n' {
                Some('\n')
            } else if s[1] == 'r' {
                Some('\r')
            } else if s[1] == 't' {
                Some('\t')
            } else {
                None
            };
            match (c, unescaped(s.skip(2))) {
                (Some(c), Some(rest)) => Some(seq![c] + rest),
                _ => None,
            }
        } else {
            None
        }
    } else if s[0] == '"' || (s[0] as u32) < 0x20 {
        None
    } else {
        match unescaped(s.skip(1)) {
            Some(rest) => Some(seq![s[0]] + rest),
            None => None,
        }
    }
}

proof fn lemma_short_escape(c: char, tail: Seq<char>)
    requires
        c == '"' || c == '\\' || c == '\n' || c == '\r' || c == '\t',
        unescaped(tail) is Some,
    ensures
        unescaped(escape(c) + tail) == Some(seq![c] + unescaped(tail).unwrap()),
{
    let e = escape(c) + tail;
    assert(e.skip(2) =~= tail);
    assert(e[0] == '\\');
    assert(e[1] == escape(c)[1]);
}

proof fn lemma_code_escape(c: char, tail: Seq<char>)
    requires
        (c as u32) < 0x20,
        c != '\n' && c != '\r' && c != '\t',
        unescaped(tail) is Some,
    ensures
        unescaped(escape(c) + tail) == Some(seq![c] + unescaped(tail).unwrap()),
{
    let e = escape(c) + tail;
    let hi = c as nat / 16;
    let lo = c as nat % 16;
    lemma_hex_digit(hi);
    lemma_hex_digit(lo);
    assert(e.skip(6) =~= tail);
    assert(escape(c).len() == 6);
    assert(e[0] == '\\');
    assert(e[1] == 'u');
    assert(e[2] == '0');
    assert(e[3] == '0');
    assert(e[4] == hex_digit(hi));
    assert(e[5] == hex_digit(lo));
    assert((hi * 16 + lo) as char == c);
}

proof fn lemma_no_escape(c: char, tail: Seq<char>)
    requires
        !((c as u32) < 0x20),
        c != '"' && c != '\\',
        unescaped(tail) is Some,
    ensures
        unescaped(escape(c) + tail) == Some(seq![c] + unescaped(tail).unwrap()),
{
    let e = escape(c) + tail;
    assert(e.skip(1) =~= tail);
    assert(e[0] == c);
}

proof fn lemma_unescaped(s: Seq<char>)
    ensures
        unescaped(escaped(s)) == Some(s),
    decreases s.len(),
{
    if s.len() > 0 {
        let c = s[0];
        let rest = s.skip(1);
        lemma_unescaped(rest);
        assert(s =~= seq![c] + rest);
        if c == '"' || c == '\\' || c == '\n' || c == '\r' || c == '\t' {
            lemma_short_escape(c, escaped(rest));
        } else if (c as u32) < 0x20 {
            lemma_code_escape(c, escaped(rest));
        } else {
            lemma_no_escape(c, escaped(rest));
        }
    } else {
        assert(s =~= Seq::<char>::empty());
    }
}

/// A JSON string reads back as the text that it was made of.
pub proof fn law_json_text_reads_back(s: Seq<char>)
    ensures
        json_text(s).first() == '"',
        json_text(s).last() == '"',
        unescaped(json_text(s).subrange(1, json_text(s).len() - 1)) == Some(s),
{
    assert(json_text(s).subrange(1, json_text(s).len() - 1) =~= escaped(s));
    lemma_unescaped(s);
}

/// Different texts are different JSON strings.
pub proof fn law_json_text_is_injective(a: Seq<char>, b: Seq<char>)
    requires
        json_text(a) == json_text(b),
    ensures
        a == b,
{
    law_json_text_reads_back(a);
    law_json_text_reads_back(b);
}

} // verus!

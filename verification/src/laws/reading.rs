//! What holds of reading a report.
use vstd::prelude::*;
use vstd::utf8::{encode_utf8, encode_utf8_decode_utf8, encode_utf8_valid_utf8};
use crate::model::SectionView;
use crate::report::{
    closed_sections, dashed, draft_of, exceptions_in, exceptions_through, file_outcome, flags_in,
    flags_made, frames_in, frames_through, mods_in, mods_through, nothing_read, report_of,
    sections_in, sections_through, title_of, unmarked, xmx_among, xmx_of, ParseErrorView,
};
use crate::text::{at, has, line_feeds, lines_of, words};

verus! {

/// Reading fails exactly where the text holds no description, no exception, no frame, no mod and no
/// section, and then says so of the source. Otherwise the report holds the text and the source as
/// they are.
pub proof fn law_what_is_a_report(raw: Seq<char>, source: Seq<char>)
    ensures
        report_of(raw, source) is Err <==> {
            let r = draft_of(raw, source);
            &&& r.description is None
            &&& r.exceptions.len() == 0
            &&& r.frames.len() == 0
            &&& r.mods.len() == 0
            &&& r.sections.len() == 0
        },
        report_of(raw, source) is Err ==> report_of(raw, source)->Err_0
            == (ParseErrorView::NotAReport { path: source, missing: nothing_read() }),
        report_of(raw, source) is Ok ==> {
            let r = report_of(raw, source)->Ok_0;
            r.raw == raw && r.source == source
        },
{
}

/// A file that cannot be read is never taken for a report, and one that can never gives a reading
/// error.
pub proof fn law_unreadable_file(read: Result<Vec<u8>, String>, path: Seq<char>)
    ensures
        read is Err ==> file_outcome(read, path) is Err,
        file_outcome(read, path) is Err && file_outcome(read, path)->Err_0 is Io <==> read is Err,
{
}

/// A text with a carriage return in front of each line feed.
pub open spec fn with_returns(text: Seq<char>) -> Seq<char>
    decreases text.len(),
{
    if text.len() == 0 {
        Seq::empty()
    } else if text[0] == '\n' {
        seq!['\r', '\n'] + with_returns(text.skip(1))
    } else {
        seq![text[0]] + with_returns(text.skip(1))
    }
}

proof fn lemma_returns(text: Seq<char>)
    requires
        !(has(text, "\r\n"@)),
    ensures
        line_feeds(with_returns(text)) == text,
        line_feeds(text) == text,
    decreases text.len(),
{
    reveal_strlit("\r\n");
    let line_end = "\r\n"@;
    assert(line_end =~= seq!['\r', '\n']);
    if text.len() > 0 {
        let rest = text.skip(1);
        let long = with_returns(text);
        assert(!(has(rest, line_end))) by {
            if has(rest, line_end) {
                let i = choose|i: int| at(rest, line_end, i);
                assert(text.subrange(i + 1, i + 3) =~= rest.subrange(i, i + 2));
                assert(at(text, line_end, i + 1));
            }
        }
        lemma_returns(rest);
        assert(text =~= seq![text[0]] + rest);
        if text.len() >= 2 && text[0] == '\r' && text[1] == '\n' {
            assert(text.subrange(0, 2) =~= line_end);
            assert(at(text, line_end, 0));
        }
        if text[0] == '\n' {
            assert(long[0] == '\r' && long[1] == '\n');
            assert(long.skip(2) =~= with_returns(rest));
        } else {
            assert(long[0] == text[0]);
            assert(long.skip(1) =~= with_returns(rest));
            if rest.len() > 0 {
                assert(rest[0] == text[1]);
                assert(long[1] == with_returns(rest)[0]);
            } else {
                assert(long.len() == 1);
            }
        }
    } else {
        assert(text =~= Seq::empty());
        assert(with_returns(text) =~= text);
    }
}

/// Neither a byte order mark in front nor carriage returns at the ends of lines make a difference:
/// a file's text is the same with and without them.
pub proof fn law_mark_and_returns_do_not_count(text: Seq<char>)
    requires
        !(has(text, "\r\n"@)),
    ensures
        !"\u{feff}"@.is_prefix_of(text) ==> unmarked(line_feeds(text)) == text,
        !"\u{feff}"@.is_prefix_of(text) ==> unmarked(line_feeds(with_returns(text))) == text,
        unmarked(line_feeds("\u{feff}"@ + text)) == text,
        unmarked(line_feeds("\u{feff}"@ + with_returns(text))) == text,
{
    reveal_strlit("\u{feff}");
    let mark = "\u{feff}"@;
    assert(mark =~= seq!['\u{feff}']);
    lemma_returns(text);
    assert((mark + text).skip(1) =~= text);
    assert((mark + with_returns(text)).skip(1) =~= with_returns(text));
    assert(line_feeds(mark + text) == mark + text);
    assert(line_feeds(mark + with_returns(text)) == mark + text);
    assert(mark.is_prefix_of(mark + text)) by {
        assert(mark =~= (mark + text).subrange(0, 1));
    }
}

/// A file that holds a text in UTF-8 is read as that text.
pub proof fn law_file_is_read_as_its_text(
    read: Result<Vec<u8>, String>,
    text: Seq<char>,
    path: Seq<char>,
)
    requires
        read is Ok,
        read->Ok_0@ == encode_utf8(text),
    ensures
        file_outcome(read, path) == report_of(unmarked(line_feeds(text)), path),
{
    encode_utf8_valid_utf8(text);
    encode_utf8_decode_utf8(text);
}

/// Frames are numbered from one, in the order in which they stand.
pub proof fn law_frames_are_numbered(raw: Seq<char>)
    ensures
        forall|i: int|
            0 <= i < frames_in(raw).len() ==> (#[trigger] frames_in(raw)[i]).index == i + 1,
{
    lemma_numbered(lines_of(raw));
}

proof fn lemma_numbered(lines: Seq<Seq<char>>)
    ensures
        forall|i: int|
            0 <= i < frames_through(lines).len() ==> (#[trigger] frames_through(lines)[i]).index
                == i + 1,
    decreases lines.len(),
{
    if lines.len() > 0 {
        lemma_numbered(lines.drop_last());
    }
}

/// No exception is listed twice.
pub proof fn law_exceptions_are_distinct(raw: Seq<char>)
    ensures
        exceptions_in(raw).no_duplicates(),
{
    lemma_exceptions(lines_of(raw));
}

proof fn lemma_exceptions(lines: Seq<Seq<char>>)
    ensures
        exceptions_through(lines).no_duplicates(),
    decreases lines.len(),
{
    if lines.len() > 0 {
        lemma_exceptions(lines.drop_last());
    }
}

/// No two mods of the list have the same id.
pub proof fn law_mod_ids_are_distinct(raw: Seq<char>)
    ensures
        forall|i: int, j: int|
            0 <= i < j < mods_in(raw).len() ==> (#[trigger] mods_in(raw)[i]).id != (
            #[trigger] mods_in(raw)[j]).id,
{
    lemma_mod_ids(lines_of(raw));
}

proof fn lemma_mod_ids(lines: Seq<Seq<char>>)
    ensures
        forall|i: int, j: int|
            0 <= i < j < mods_through(lines).mods.len() ==> (#[trigger] mods_through(
                lines,
            ).mods[i]).id != (#[trigger] mods_through(lines).mods[j]).id,
    decreases lines.len(),
{
    if lines.len() > 0 {
        lemma_mod_ids(lines.drop_last());
        let before = mods_through(lines.drop_last()).mods;
        let after = mods_through(lines).mods;
        assert forall|i: int, j: int| 0 <= i < j < after.len() implies (#[trigger] after[i]).id != (
        #[trigger] after[j]).id by {
            assert(before[i] == after[i]);
            if j < before.len() {
                assert(before[j] == after[j]);
            }
        }
    }
}

/// The titles that some lines give, in order.
pub open spec fn titles_in(lines: Seq<Seq<char>>) -> Seq<Seq<char>>
    decreases lines.len(),
{
    if lines.len() == 0 {
        Seq::empty()
    } else {
        match title_of(lines.last()) {
            Some(name) => titles_in(lines.drop_last()).push(name),
            None => titles_in(lines.drop_last()),
        }
    }
}

/// There is one section for each heading, in the order of the headings and under their titles.
pub proof fn law_one_section_per_heading(raw: Seq<char>)
    ensures
        sections_in(raw).map_values(|s: SectionView| s.name) == titles_in(lines_of(raw)),
{
    lemma_sections(lines_of(raw));
}

proof fn lemma_sections(lines: Seq<Seq<char>>)
    ensures
        closed_sections(sections_through(lines)).map_values(|s: SectionView| s.name) == titles_in(
            lines,
        ),
    decreases lines.len(),
{
    let now = closed_sections(sections_through(lines)).map_values(|s: SectionView| s.name);
    if lines.len() > 0 {
        lemma_sections(lines.drop_last());
        let before = closed_sections(sections_through(lines.drop_last())).map_values(
            |s: SectionView| s.name,
        );
        match title_of(lines.last()) {
            Some(name) => {
                assert(now =~= before.push(name));
            },
            None => {
                assert(now =~= before);
            },
        }
    } else {
        assert(now =~= Seq::empty());
    }
}

/// Every flag starts with a dash.
pub proof fn law_flags_start_with_a_dash(raw: Seq<char>)
    ensures
        forall|i: int| 0 <= i < flags_in(raw).len() ==> "-"@.is_prefix_of(#[trigger] flags_in(raw)[i]),
{
    assert forall|line: Option<Seq<char>>, i: int|
        0 <= i < flags_made(line).len() implies "-"@.is_prefix_of(#[trigger] flags_made(line)[i]) by {
        if line is Some {
            lemma_dashed(words(line->0));
        }
    }
}

proof fn lemma_dashed(parts: Seq<Seq<char>>)
    ensures
        forall|i: int| 0 <= i < dashed(parts).len() ==> "-"@.is_prefix_of(#[trigger] dashed(parts)[i]),
    decreases parts.len(),
{
    if parts.len() > 0 {
        let before = dashed(parts.drop_last());
        lemma_dashed(parts.drop_last());
        assert forall|i: int| 0 <= i < dashed(parts).len() implies "-"@.is_prefix_of(
            #[trigger] dashed(parts)[i],
        ) by {
            if i < before.len() {
                assert("-"@.is_prefix_of(before[i]));
            }
        }
    }
}

/// A heap limit that is read is never nothing.
pub proof fn law_heap_limit_is_positive(flags: Seq<Seq<char>>)
    ensures
        xmx_among(flags) != Some(0u32),
    decreases flags.len(),
{
    if flags.len() > 0 {
        law_heap_limit_is_positive(flags.skip(1));
        assert(xmx_of(flags[0]) != Some(0u32));
    }
}

} // verus!

//! Reads the text of a crash report.
use vstd::prelude::*;
use crate::model::{
    excs_of, frames_of, id_key, mod_id_key, mods_of, sections_of, Exc, ExcView, FrameView, Loader,
    ModInfo, ModView, Report, ReportView, Section, SectionView, StackFrame,
};
use crate::number::{parse_unsigned, parsed};
use crate::pattern::{
    captures_of, field_in, field_text, group_in, group_text, groups_of, Groups, Pattern,
};
use crate::text::{
    after_last, after_prefix, ascii_lowered, before_suffix, cat4, contains, contains_char,
    from_utf8_lossy, has, has_digit, line_feeds, lines, lines_of, lowercase, pieces, push_text,
    remove_char, same, some_digit, split, split_words, starts_with, strip_prefix, strip_suffix,
    tail, text_of, texts, to_ascii_lower, to_line_feeds, to_lower, trim, trim_end_of, trim_end_set,
    trimmed, utf8_lossy, without, words, CharSet,
};

verus! {

pub const DESCRIPTION: &'static str = r"(?m)^Description:\s*(.+?)\s*$";

pub const MC_VERSION: &'static str = r"(?m)^[ \t]*Minecraft Version:\s*([\w.\-+]+)\s*$";

pub const JAVA: &'static str = r"(?m)^[ \t]*Java Version:\s*(.+?)\s*$";

pub const JVM_FLAGS: &'static str = r"(?m)^[ \t]*JVM Flags:\s*\d+ total;\s*(.+?)\s*$";

pub const MEMORY: &'static str = r"(?m)^[ \t]*Memory:\s*(.+?)\s*$";

pub const HEAP_MAX: &'static str = r"up to\s+\d+ bytes \((\d[\d,]*)\s*MiB\)";

pub const LAUNCHED: &'static str = r"(?m)^[ \t]*Launched Version:\s*(?:forge-|neoforge-)([\w.\-+]+)";

pub const FORGE_JAR: &'static str = r"(?i)forge-\d+\.\d+(?:\.\d+)?-(\d[\w.\-]*?)(?:-|\.jar)";

pub const SYSTEM_DETAILS: &'static str = r"(?m)^[ \t]*--\s*System Details\s*--";

pub const SECTION: &'static str = r"^[ \t]*--[ \t]*([^\-\s].*?)[ \t]*--[ \t]*$";

pub const FRAME: &'static str = r"^\s*at\s+(?:[\w.$]+/)?((?:[\w$]+\.)+[\w$]+)\.([\w$<>]+)\(([^)]*)\)(?:\s*~\[([^\]:]+\.jar))?";

pub const EXCEPTION: &'static str = r"^((?:[\w$]+\.)+[A-Za-z_$][\w$]*(?:Exception|Error|Throwable|Failure))(?::\s*(.*))?$";

pub const MOD_HEADER: &'static str = r"(?m)^[ \t]*(?:Mod List|Mods|Forge Mod List|Loaded Mods)[ \t]*:[ \t]*$";

pub const KEY_VALUE: &'static str = r"^[A-Za-z][A-Za-z0-9 _/.\-]*:\s*\S";

pub const PAREN_MOD: &'static str = r"^\(\s*([\w.\-+]+)\s+([\w.\-+]+)\s*\)$";

pub const XMX: &'static str = r"-Xmx(\d+)([kKmMgG]?)";

/// Why there is no report.
#[derive(Debug)]
pub enum ParseError {
    Io { path: String, source: String },
    NotAReport { path: String, missing: String },
}

pub enum ParseErrorView {
    Io { path: Seq<char>, source: Seq<char> },
    NotAReport { path: Seq<char>, missing: Seq<char> },
}

impl View for ParseError {
    type V = ParseErrorView;

    open spec fn view(&self) -> ParseErrorView {
        match self {
            ParseError::Io { path, source } => ParseErrorView::Io { path: path@, source: source@ },
            ParseError::NotAReport { path, missing } => ParseErrorView::NotAReport {
                path: path@,
                missing: missing@,
            },
        }
    }
}

pub open spec fn error_text(e: ParseErrorView) -> Seq<char> {
    match e {
        ParseErrorView::Io { path, source } => "could not read \""@ + path + "\": "@ + source,
        ParseErrorView::NotAReport { path, missing } => "\""@ + path
            + "\" does not look like a Minecraft crash report: "@ + missing,
    }
}

impl ParseError {
    /// The error in words.
    pub fn message(&self) -> (r: String)
        ensures
            r@ == error_text(self@),
    {
        match self {
            ParseError::Io { path, source } => cat4("could not read \"", path, "\": ", source),
            ParseError::NotAReport { path, missing } => cat4(
                "\"",
                path,
                "\" does not look like a Minecraft crash report: ",
                missing,
            ),
        }
    }
}

/// The sections read so far: those that are complete, and the one that further lines go to.
pub struct SectionList {
    pub done: Vec<Section>,
    pub open: Option<Section>,
}

pub struct SectionListView {
    pub done: Seq<SectionView>,
    pub open: Option<SectionView>,
}

impl View for SectionList {
    type V = SectionListView;

    open spec fn view(&self) -> SectionListView {
        SectionListView {
            done: sections_of(self.done@),
            open: match self.open {
                Some(s) => Some(s@),
                None => None,
            },
        }
    }
}

/// All sections of a list, the open one last.
pub open spec fn closed_sections(l: SectionListView) -> Seq<SectionView> {
    match l.open {
        Some(s) => l.done.push(s),
        None => l.done,
    }
}

/// The list after one more line: a heading opens a section under its title, and any other line
/// goes to the section that is open.
pub open spec fn sections_after(
    l: SectionListView,
    line: Seq<char>,
    title: Option<Seq<char>>,
) -> SectionListView {
    match title {
        Some(name) => SectionListView {
            done: closed_sections(l),
            open: Some(SectionView { name, body: Seq::empty() }),
        },
        None => match l.open {
            Some(s) => SectionListView {
                done: l.done,
                open: Some(SectionView { name: s.name, body: s.body + line + "\n"@ }),
            },
            None => l,
        },
    }
}

impl SectionList {
    pub fn new() -> (r: Self)
        ensures
            r@ == (SectionListView { done: Seq::empty(), open: None }),
    {
        let r = SectionList { done: Vec::new(), open: None };
        assert(r@.done =~= Seq::<SectionView>::empty());
        r
    }

    pub fn finish(self) -> (r: Vec<Section>)
        ensures
            sections_of(r@) == closed_sections(self@),
    {
        let mut done = self.done;
        let ghost before = done@;
        if let Some(s) = self.open {
            done.push(s);
            assert(sections_of(done@) =~= sections_of(before).push(s@));
        }
        done
    }

    pub fn add(self, line: &str, title: Option<String>) -> (r: Self)
        ensures
            r@ == sections_after(self@, line@, text_of(title)),
    {
        match title {
            Some(name) => SectionList {
                done: self.finish(),
                open: Some(Section { name, body: String::new() }),
            },
            None => match self.open {
                Some(s) => {
                    let mut body = s.body;
                    body.append(line);
                    body.append("\n");
                    SectionList { done: self.done, open: Some(Section { name: s.name, body }) }
                },
                None => SectionList { done: self.done, open: None },
            },
        }
    }
}

/// The title that a line gives to a section, if it is a heading.
pub open spec fn title_of(line: Seq<char>) -> Option<Seq<char>> {
    group_in(captures_of(SECTION@, line), 1)
}

pub open spec fn sections_through(lines: Seq<Seq<char>>) -> SectionListView
    decreases lines.len(),
{
    if lines.len() == 0 {
        SectionListView { done: Seq::empty(), open: None }
    } else {
        sections_after(sections_through(lines.drop_last()), lines.last(), title_of(lines.last()))
    }
}

/// The sections of a report.
pub open spec fn sections_in(raw: Seq<char>) -> Seq<SectionView> {
    closed_sections(sections_through(lines_of(raw)))
}

pub fn split_sections(raw: &str) -> (r: Vec<Section>)
    ensures
        sections_of(r@) == sections_in(raw@),
{
    let heading = Pattern::new(SECTION);
    let all = lines(raw);
    let mut list = SectionList::new();
    let mut i: usize = 0;
    while i < all.len()
        invariant
            i <= all.len(),
            heading@ == SECTION@,
            list@ == sections_through(texts(all@).take(i as int)),
        decreases all.len() - i,
    {
        let ghost upto = texts(all@).take(i + 1);
        assert(upto.drop_last() =~= texts(all@).take(i as int));
        assert(upto.last() == all@[i as int]@);
        let line: &str = &all[i];
        list = list.add(line, group_text(&heading.captures(line), 1));
        i = i + 1;
    }
    assert(texts(all@).take(i as int) =~= texts(all@));
    list.finish()
}

/// The line number at the end of a location such as `Block.java:42`.
pub open spec fn line_in(location: Seq<char>) -> Option<u32> {
    if location.contains(':') {
        as_u32(parsed(trimmed(after_last(location, CharSet::Just(':'))), u32::MAX as nat))
    } else {
        None
    }
}

pub open spec fn as_u32(n: Option<nat>) -> Option<u32> {
    match n {
        Some(n) => Some(n as u32),
        None => None,
    }
}

fn parse_u32(s: &str) -> (r: Option<u32>)
    ensures
        r == as_u32(parsed(s@, u32::MAX as nat)),
{
    match parse_unsigned(s, u32::MAX as u64) {
        Some(n) => Some(n as u32),
        None => None,
    }
}

pub fn file_line(location: &str) -> (r: Option<u32>)
    ensures
        r == line_in(location@),
{
    if contains_char(location, ':') {
        parse_u32(trim(tail(location, CharSet::Just(':'))))
    } else {
        None
    }
}

/// The frame that the groups of a match make: its class, its method, the location in brackets and
/// the jar.
pub open spec fn frame_made(c: Option<Seq<Option<Seq<char>>>>, index: nat) -> Option<FrameView> {
    match (group_in(c, 1), group_in(c, 2)) {
        (Some(class), Some(method)) => {
            let location = field_in(c, 3);
            Some(
                FrameView {
                    index,
                    class,
                    method,
                    location,
                    line: match location {
                        Some(loc) => line_in(loc),
                        None => None,
                    },
                    jar: field_in(c, 4),
                },
            )
        },
        _ => None,
    }
}

pub fn frame_from(found: &Option<Groups>, index: usize) -> (r: Option<StackFrame>)
    ensures
        match r {
            Some(f) => frame_made(groups_of(*found), index as nat) == Some(f@),
            None => frame_made(groups_of(*found), index as nat) is None,
        },
{
    match (group_text(found, 1), group_text(found, 2)) {
        (Some(class), Some(method)) => {
            let location = field_text(found, 3);
            let line = match &location {
                Some(loc) => file_line(loc),
                None => None,
            };
            Some(StackFrame { index, class, method, location, line, jar: field_text(found, 4) })
        },
        _ => None,
    }
}

/// What a line holds of a stack frame.
pub open spec fn frame_match(line: Seq<char>) -> Option<Seq<Option<Seq<char>>>> {
    if has(line, "at "@) {
        captures_of(FRAME@, line)
    } else {
        None
    }
}

/// The frames of a report's lines, numbered from one.
pub open spec fn frames_through(lines: Seq<Seq<char>>) -> Seq<FrameView>
    decreases lines.len(),
{
    if lines.len() == 0 {
        Seq::empty()
    } else {
        let before = frames_through(lines.drop_last());
        match frame_made(frame_match(lines.last()), before.len() + 1) {
            Some(f) => before.push(f),
            None => before,
        }
    }
}

/// The stack frames of a report.
pub open spec fn frames_in(raw: Seq<char>) -> Seq<FrameView> {
    frames_through(lines_of(raw))
}

pub fn parse_frames(raw: &str) -> (r: Vec<StackFrame>)
    ensures
        frames_of(r@) == frames_in(raw@),
{
    let pattern = Pattern::new(FRAME);
    let all = lines(raw);
    let mut out: Vec<StackFrame> = Vec::new();
    let mut i: usize = 0;
    assert(frames_of(out@) =~= Seq::<FrameView>::empty());
    while i < all.len()
        invariant
            i <= all.len(),
            pattern@ == FRAME@,
            out.len() <= i,
            frames_of(out@) == frames_through(texts(all@).take(i as int)),
        decreases all.len() - i,
    {
        let ghost upto = texts(all@).take(i + 1);
        assert(upto.drop_last() =~= texts(all@).take(i as int));
        assert(upto.last() == all@[i as int]@);
        let ghost before = out@;
        let line: &str = &all[i];
        let found = if contains(line, "at ") {
            pattern.captures(line)
        } else {
            None
        };
        if let Some(f) = frame_from(&found, out.len() + 1) {
            out.push(f);
            assert(frames_of(out@) =~= frames_of(before).push(f@));
        }
        i = i + 1;
    }
    assert(texts(all@).take(i as int) =~= texts(all@));
    out
}

/// Whether a line names a cause, and what may be an exception in it.
pub open spec fn exception_part(line: Seq<char>) -> (bool, Seq<char>) {
    match after_prefix(trimmed(line), "Caused by: "@) {
        Some(rest) => (true, trimmed(rest)),
        None => (false, trimmed(line)),
    }
}

/// What a line holds of an exception: a line of the stack trace holds none.
pub open spec fn exception_match(line: Seq<char>) -> Option<Seq<Option<Seq<char>>>> {
    let rest = exception_part(line).1;
    if "at "@.is_prefix_of(rest) || "..."@.is_prefix_of(rest) {
        None
    } else {
        captures_of(EXCEPTION@, rest)
    }
}

/// The exception that the groups of a match make: its class and its message.
pub open spec fn exception_made(c: Option<Seq<Option<Seq<char>>>>, caused_by: bool) -> Option<
    ExcView,
> {
    match group_in(c, 1) {
        Some(fqcn) => Some(ExcView { fqcn, message: field_in(c, 2), caused_by }),
        None => None,
    }
}

pub fn exception_from(found: &Option<Groups>, caused_by: bool) -> (r: Option<Exc>)
    ensures
        match r {
            Some(e) => exception_made(groups_of(*found), caused_by) == Some(e@),
            None => exception_made(groups_of(*found), caused_by) is None,
        },
{
    match group_text(found, 1) {
        Some(fqcn) => Some(Exc { fqcn, message: field_text(found, 2), caused_by }),
        None => None,
    }
}

/// The exceptions of a report's lines, each once.
pub open spec fn exceptions_through(lines: Seq<Seq<char>>) -> Seq<ExcView>
    decreases lines.len(),
{
    if lines.len() == 0 {
        Seq::empty()
    } else {
        let before = exceptions_through(lines.drop_last());
        let line = lines.last();
        match exception_made(exception_match(line), exception_part(line).0) {
            Some(e) => if before.contains(e) {
                before
            } else {
                before.push(e)
            },
            None => before,
        }
    }
}

/// The exceptions that a report names.
pub open spec fn exceptions_in(raw: Seq<char>) -> Seq<ExcView> {
    exceptions_through(lines_of(raw))
}

fn same_message(a: &Option<String>, b: &Option<String>) -> (r: bool)
    ensures
        r == (text_of(*a) == text_of(*b)),
{
    match (a, b) {
        (Some(x), Some(y)) => same(x, y),
        (None, None) => true,
        _ => false,
    }
}

fn has_exception(list: &Vec<Exc>, e: &Exc) -> (r: bool)
    ensures
        r == excs_of(list@).contains(e@),
{
    let mut i: usize = 0;
    while i < list.len()
        invariant
            i <= list.len(),
            forall|j: int| 0 <= j < i ==> excs_of(list@)[j] != e@,
        decreases list.len() - i,
    {
        let x = &list[i];
        assert(excs_of(list@)[i as int] == x@);
        if same(&x.fqcn, &e.fqcn) && same_message(&x.message, &e.message) && x.caused_by
            == e.caused_by {
            return true;
        }
        i = i + 1;
    }
    false
}

pub fn parse_exceptions(raw: &str) -> (r: Vec<Exc>)
    ensures
        excs_of(r@) == exceptions_in(raw@),
{
    let pattern = Pattern::new(EXCEPTION);
    let all = lines(raw);
    let mut out: Vec<Exc> = Vec::new();
    let mut i: usize = 0;
    assert(excs_of(out@) =~= Seq::<ExcView>::empty());
    while i < all.len()
        invariant
            i <= all.len(),
            pattern@ == EXCEPTION@,
            excs_of(out@) == exceptions_through(texts(all@).take(i as int)),
        decreases all.len() - i,
    {
        let ghost upto = texts(all@).take(i + 1);
        assert(upto.drop_last() =~= texts(all@).take(i as int));
        assert(upto.last() == all@[i as int]@);
        let ghost before = out@;
        let line: &str = trim(&all[i]);
        let (caused_by, rest) = match strip_prefix(line, "Caused by: ") {
            Some(rest) => (true, trim(rest)),
            None => (false, line),
        };
        let found = if starts_with(rest, "at ") || starts_with(rest, "...") {
            None
        } else {
            pattern.captures(rest)
        };
        if let Some(e) = exception_from(&found, caused_by) {
            if !has_exception(&out, &e) {
                out.push(e);
                assert(excs_of(out@) =~= excs_of(before).push(e@));
            }
        }
        i = i + 1;
    }
    assert(texts(all@).take(i as int) =~= texts(all@));
    out
}

/// A line of the mod list without white space and commas around it.
pub open spec fn entry_body(line: Seq<char>) -> Seq<char> {
    trimmed(trim_end_of(trimmed(line), CharSet::Just(','), true))
}

fn body_of<'a>(line: &'a str) -> (r: &'a str)
    ensures
        r@ == entry_body(line@),
{
    trim(trim_end_set(trim(line), CharSet::Just(','), true))
}

/// The mod of a line with bars: its file, name, id and version, or the last three alone. Nothing
/// where there are fewer fields, or where the id or the version is empty.
pub open spec fn barred_mod(body: Seq<char>) -> Option<ModView> {
    let fields = pieces(body, CharSet::Just('|'));
    let n: int = if fields.len() >= 4 {
        1
    } else {
        0
    };
    if fields.len() < 3 {
        None
    } else {
        let name = trimmed(fields[n]);
        let id = trimmed(fields[n + 1]);
        let version = trimmed(fields[n + 2]);
        let file = if n == 1 && trimmed(fields[0]).len() > 0 {
            Some(trimmed(fields[0]))
        } else {
            None
        };
        if id.len() == 0 || version.len() == 0 {
            None
        } else {
            Some(ModView { id, name, version, file })
        }
    }
}

/// The mod of a line that is an id, or the name of a jar, and then a version with a digit in it.
pub open spec fn spaced_mod(body: Seq<char>) -> Option<ModView> {
    let parts = words(body);
    if parts.len() < 2 || !some_digit(parts[1]) {
        None
    } else {
        let id = match before_suffix(parts[0], ".jar"@) {
            Some(stem) => stem,
            None => parts[0],
        };
        Some(ModView { id, name: id, version: parts[1], file: None })
    }
}

/// The mod that a line of the list makes. `paren` is what the line holds of an id and a version in
/// brackets; `pair` says that the line is a key with a value.
pub open spec fn mod_made(
    line: Seq<char>,
    paren: Option<Seq<Option<Seq<char>>>>,
    pair: bool,
) -> Option<ModView> {
    let body = entry_body(line);
    if body.len() == 0 || "//"@.is_prefix_of(body) {
        None
    } else if body.contains('|') {
        barred_mod(body)
    } else {
        match (group_in(paren, 1), group_in(paren, 2)) {
            (Some(id), Some(version)) => Some(ModView { id, name: id, version, file: None }),
            _ => if pair {
                None
            } else {
                spaced_mod(body)
            },
        }
    }
}

fn barred_entry(body: &str) -> (r: Option<ModInfo>)
    ensures
        match r {
            Some(m) => barred_mod(body@) == Some(m@),
            None => barred_mod(body@) is None,
        },
{
    let fields = split(body, CharSet::Just('|'));
    let ghost all = texts(fields@);
    assert(all.len() == fields.len());
    if fields.len() < 3 {
        return None;
    }
    let n: usize = if fields.len() >= 4 {
        1
    } else {
        0
    };
    assert(all[0] == fields@[0]@);
    assert(all[n as int] == fields@[n as int]@);
    assert(all[n + 1] == fields@[n + 1]@);
    assert(all[n + 2] == fields@[n + 2]@);
    let name = trim(&fields[n]);
    let id = trim(&fields[n + 1]);
    let version = trim(&fields[n + 2]);
    if id.is_empty() || version.is_empty() {
        return None;
    }
    let mut m = ModInfo::new(id, name, version);
    if n == 1 {
        let file = trim(&fields[0]);
        if !file.is_empty() {
            m.file = Some(file.to_owned());
        }
    }
    Some(m)
}

fn spaced_entry(body: &str) -> (r: Option<ModInfo>)
    ensures
        match r {
            Some(m) => spaced_mod(body@) == Some(m@),
            None => spaced_mod(body@) is None,
        },
{
    let parts = split_words(body);
    let ghost all = texts(parts@);
    assert(all.len() == parts.len());
    if parts.len() < 2 {
        return None;
    }
    assert(all[0] == parts@[0]@ && all[1] == parts@[1]@);
    let version: &str = &parts[1];
    if !has_digit(version) {
        return None;
    }
    let first: &str = &parts[0];
    let id = match strip_suffix(first, ".jar") {
        Some(stem) => stem,
        None => first,
    };
    Some(ModInfo::new(id, id, version))
}

pub fn mod_from(line: &str, paren: &Option<Groups>, pair: bool) -> (r: Option<ModInfo>)
    ensures
        match r {
            Some(m) => mod_made(line@, groups_of(*paren), pair) == Some(m@),
            None => mod_made(line@, groups_of(*paren), pair) is None,
        },
{
    let body = body_of(line);
    if body.is_empty() || starts_with(body, "//") {
        return None;
    }
    if contains_char(body, '|') {
        return barred_entry(body);
    }
    match (group_text(paren, 1), group_text(paren, 2)) {
        (Some(id), Some(version)) => Some(ModInfo::new(&id, &id, &version)),
        _ => if pair {
            None
        } else {
            spaced_entry(body)
        },
    }
}

/// What a line is to the mod list.
pub enum LineKind {
    /// It starts a list.
    Header,
    /// It is the heading of a section.
    Heading,
    /// Nothing is on it.
    Blank,
    /// It does not look like an entry.
    Foreign,
    /// It looks like an entry, and makes a mod or not.
    Entry(Option<ModInfo>),
}

pub enum LineKindView {
    Header,
    Heading,
    Blank,
    Foreign,
    Entry(Option<ModView>),
}

impl View for LineKind {
    type V = LineKindView;

    open spec fn view(&self) -> LineKindView {
        match self {
            LineKind::Header => LineKindView::Header,
            LineKind::Heading => LineKindView::Heading,
            LineKind::Blank => LineKindView::Blank,
            LineKind::Foreign => LineKindView::Foreign,
            LineKind::Entry(m) => LineKindView::Entry(
                match m {
                    Some(m) => Some(m@),
                    None => None,
                },
            ),
        }
    }
}

/// Whether a line looks like an entry of the mod list; `pair` says that it is, without the white
/// space around it, a key with a value.
pub open spec fn looks_like_entry(line: Seq<char>, pair: bool) -> bool {
    line.contains('|') || (("\t"@.is_prefix_of(line) || "  "@.is_prefix_of(line)) && !pair)
}

pub fn is_mod_entry_line(line: &str, pair: bool) -> (r: bool)
    ensures
        r == looks_like_entry(line@, pair),
{
    contains_char(line, '|') || ((starts_with(line, "\t") || starts_with(line, "  ")) && !pair)
}

/// What the regular expressions say of a line.
pub struct LineFacts {
    /// It starts a mod list.
    pub header: bool,
    /// It is the heading of a section.
    pub heading: bool,
    /// Without the white space around it, it is a key with a value.
    pub pair: bool,
    /// The same of what `entry_body` leaves of it.
    pub body_pair: bool,
    /// The id and the version in brackets that it is.
    pub paren: Option<Groups>,
}

pub open spec fn kind_made(line: Seq<char>, f: LineFacts) -> LineKindView {
    if f.header {
        LineKindView::Header
    } else if f.heading {
        LineKindView::Heading
    } else if trimmed(line).len() == 0 {
        LineKindView::Blank
    } else if !looks_like_entry(line, f.pair) {
        LineKindView::Foreign
    } else {
        LineKindView::Entry(mod_made(line, groups_of(f.paren), f.body_pair))
    }
}

pub fn kind_from(line: &str, f: &LineFacts) -> (r: LineKind)
    ensures
        r@ == kind_made(line@, *f),
{
    if f.header {
        LineKind::Header
    } else if f.heading {
        LineKind::Heading
    } else if trim(line).is_empty() {
        LineKind::Blank
    } else if !is_mod_entry_line(line, f.pair) {
        LineKind::Foreign
    } else {
        LineKind::Entry(mod_from(line, &f.paren, f.body_pair))
    }
}

/// What a line of the report is to the mod list.
pub open spec fn kind_of(line: Seq<char>) -> LineKindView {
    if captures_of(MOD_HEADER@, line) is Some {
        LineKindView::Header
    } else if captures_of(SECTION@, line) is Some {
        LineKindView::Heading
    } else if trimmed(line).len() == 0 {
        LineKindView::Blank
    } else if !looks_like_entry(line, captures_of(KEY_VALUE@, trimmed(line)) is Some) {
        LineKindView::Foreign
    } else {
        let body = entry_body(line);
        LineKindView::Entry(
            mod_made(
                line,
                captures_of(PAREN_MOD@, body),
                captures_of(KEY_VALUE@, body) is Some,
            ),
        )
    }
}

/// The mods read so far, and whether the lines that follow belong to a list.
pub struct ModList {
    pub open: bool,
    pub mods: Vec<ModInfo>,
}

pub struct ModListView {
    pub open: bool,
    pub mods: Seq<ModView>,
}

impl View for ModList {
    type V = ModListView;

    open spec fn view(&self) -> ModListView {
        ModListView { open: self.open, mods: mods_of(self.mods@) }
    }
}

/// Whether a mod of exactly this id is in the list.
pub open spec fn id_listed(mods: Seq<ModView>, id: Seq<char>) -> bool {
    exists|i: int| 0 <= i < mods.len() && (#[trigger] mods[i]).id == id
}

/// The list after one more line.
pub open spec fn mods_after(l: ModListView, kind: LineKindView) -> ModListView {
    match kind {
        LineKindView::Header => ModListView { open: true, mods: l.mods },
        LineKindView::Heading => ModListView { open: false, mods: l.mods },
        LineKindView::Blank => l,
        LineKindView::Foreign => ModListView { open: false, mods: l.mods },
        LineKindView::Entry(Some(m)) => if l.open && !id_listed(l.mods, m.id) {
            ModListView { open: true, mods: l.mods.push(m) }
        } else {
            l
        },
        LineKindView::Entry(None) => l,
    }
}

impl ModList {
    pub fn new() -> (r: Self)
        ensures
            r@ == (ModListView { open: false, mods: Seq::empty() }),
    {
        let r = ModList { open: false, mods: Vec::new() };
        assert(r@.mods =~= Seq::<ModView>::empty());
        r
    }

    fn has_id(&self, id: &str) -> (r: bool)
        ensures
            r == id_listed(self@.mods, id@),
    {
        let mut i: usize = 0;
        while i < self.mods.len()
            invariant
                i <= self.mods.len(),
                forall|j: int| 0 <= j < i ==> (#[trigger] self@.mods[j]).id != id@,
            decreases self.mods.len() - i,
        {
            if same(&self.mods[i].id, id) {
                assert(self@.mods[i as int].id == id@);
                return true;
            }
            i = i + 1;
        }
        false
    }

    pub fn add(&mut self, kind: LineKind)
        ensures
            final(self)@ == mods_after(old(self)@, kind@),
    {
        match kind {
            LineKind::Header => {
                self.open = true;
            },
            LineKind::Heading => {
                self.open = false;
            },
            LineKind::Blank => {},
            LineKind::Foreign => {
                self.open = false;
            },
            LineKind::Entry(Some(m)) => {
                if self.open && !self.has_id(&m.id) {
                    let ghost before = self.mods@;
                    self.mods.push(m);
                    assert(mods_of(self.mods@) =~= mods_of(before).push(m@));
                }
            },
            LineKind::Entry(None) => {},
        }
    }
}

pub open spec fn mods_through(lines: Seq<Seq<char>>) -> ModListView
    decreases lines.len(),
{
    if lines.len() == 0 {
        ModListView { open: false, mods: Seq::empty() }
    } else {
        mods_after(mods_through(lines.drop_last()), kind_of(lines.last()))
    }
}

/// The mods that a report lists.
pub open spec fn mods_in(raw: Seq<char>) -> Seq<ModView> {
    mods_through(lines_of(raw)).mods
}

pub fn parse_mods(raw: &str) -> (r: Vec<ModInfo>)
    ensures
        mods_of(r@) == mods_in(raw@),
{
    let header = Pattern::new(MOD_HEADER);
    let heading = Pattern::new(SECTION);
    let key_value = Pattern::new(KEY_VALUE);
    let paren = Pattern::new(PAREN_MOD);
    let all = lines(raw);
    let mut list = ModList::new();
    let mut i: usize = 0;
    while i < all.len()
        invariant
            i <= all.len(),
            header@ == MOD_HEADER@,
            heading@ == SECTION@,
            key_value@ == KEY_VALUE@,
            paren@ == PAREN_MOD@,
            list@ == mods_through(texts(all@).take(i as int)),
        decreases all.len() - i,
    {
        let ghost upto = texts(all@).take(i + 1);
        assert(upto.drop_last() =~= texts(all@).take(i as int));
        assert(upto.last() == all@[i as int]@);
        let line: &str = &all[i];
        let body = body_of(line);
        let facts = LineFacts {
            header: header.is_match(line),
            heading: heading.is_match(line),
            pair: key_value.is_match(trim(line)),
            body_pair: key_value.is_match(body),
            paren: paren.captures(body),
        };
        list.add(kind_from(line, &facts));
        i = i + 1;
    }
    assert(texts(all@).take(i as int) =~= texts(all@));
    list.mods
}

/// Whether some mod's id compares equal to `key`.
pub open spec fn key_listed(mods: Seq<ModView>, key: Seq<char>) -> bool {
    exists|i: int| 0 <= i < mods.len() && id_key((#[trigger] mods[i]).id) == key
}

fn has_key(mods: &Vec<ModInfo>, key: &str) -> (r: bool)
    ensures
        r == key_listed(mods_of(mods@), key@),
{
    let mut i: usize = 0;
    while i < mods.len()
        invariant
            i <= mods.len(),
            forall|j: int| 0 <= j < i ==> id_key((#[trigger] mods_of(mods@)[j]).id) != key@,
        decreases mods.len() - i,
    {
        if same(&mod_id_key(&mods[i].id), key) {
            assert(id_key(mods_of(mods@)[i as int].id) == key@);
            return true;
        }
        i = i + 1;
    }
    false
}

/// The loader of a report: the one in the mod list, or else the one that the text speaks of, which
/// is given in lower case.
pub open spec fn loader_made(lower: Seq<char>, mods: Seq<ModView>) -> Loader {
    if key_listed(mods, "neoforge"@) {
        Loader::NeoForge
    } else if key_listed(mods, "forge"@) {
        Loader::Forge
    } else if has(lower, "neoforge"@) || has(lower, "neo-forge"@) {
        Loader::NeoForge
    } else if has(lower, "minecraftforge"@) || has(lower, "modlauncher"@) || has(
        lower,
        "forge-1."@,
    ) {
        Loader::Forge
    } else if has(lower, "fabricloader"@) || has(lower, "net.fabricmc"@) {
        Loader::Fabric
    } else {
        Loader::Unknown
    }
}

pub fn loader_from(lower: &str, mods: &Vec<ModInfo>) -> (r: Loader)
    ensures
        r == loader_made(lower@, mods_of(mods@)),
{
    if has_key(mods, "neoforge") {
        return Loader::NeoForge;
    }
    if has_key(mods, "forge") {
        return Loader::Forge;
    }
    if contains(lower, "neoforge") || contains(lower, "neo-forge") {
        return Loader::NeoForge;
    }
    if contains(lower, "minecraftforge") || contains(lower, "modlauncher") || contains(
        lower,
        "forge-1.",
    ) {
        return Loader::Forge;
    }
    if contains(lower, "fabricloader") || contains(lower, "net.fabricmc") {
        return Loader::Fabric;
    }
    Loader::Unknown
}

/// The loader of a report, by its text and its mod list.
pub open spec fn loader_in(raw: Seq<char>, mods: Seq<ModView>) -> Loader {
    loader_made(lowercase(raw), mods)
}

pub fn detect_loader(raw: &str, mods: &Vec<ModInfo>) -> (r: Loader)
    ensures
        r == loader_in(raw@, mods_of(mods@)),
{
    loader_from(&to_lower(raw), mods)
}

/// The version of the first mod that has one and whose id compares equal to `id`.
pub open spec fn version_listed(mods: Seq<ModView>, id: Seq<char>) -> Option<Seq<char>>
    decreases mods.len(),
{
    if mods.len() == 0 {
        None
    } else if id_key(mods[0].id) == id_key(id) && mods[0].version.len() > 0 {
        Some(mods[0].version)
    } else {
        version_listed(mods.skip(1), id)
    }
}

fn listed_version(mods: &Vec<ModInfo>, id: &str) -> (r: Option<String>)
    ensures
        text_of(r) == version_listed(mods_of(mods@), id@),
{
    let key = mod_id_key(id);
    let ghost all = mods_of(mods@);
    let mut i: usize = 0;
    assert(all.skip(0) =~= all);
    while i < mods.len()
        invariant
            i <= mods.len(),
            all == mods_of(mods@),
            key@ == id_key(id@),
            version_listed(all, id@) == version_listed(all.skip(i as int), id@),
        decreases mods.len() - i,
    {
        let m = &mods[i];
        assert(all.skip(i as int)[0] == m@);
        assert(all.skip(i as int).skip(1) =~= all.skip(i + 1));
        if mod_id_key(&m.id) == key && !m.version.as_str().is_empty() {
            return Some(m.version.clone());
        }
        i = i + 1;
    }
    None
}

/// The loader's version in the mod list.
pub open spec fn listed_loader_version(mods: Seq<ModView>, loader: Loader) -> Option<Seq<char>> {
    let forge = version_listed(mods, "forge"@);
    let neoforge = version_listed(mods, "neoforge"@);
    match loader {
        Loader::NeoForge => if neoforge is Some {
            neoforge
        } else {
            forge
        },
        Loader::Forge => forge,
        _ => if forge is Some {
            forge
        } else if neoforge is Some {
            neoforge
        } else {
            version_listed(mods, "fabricloader"@)
        },
    }
}

/// The loader's version: from the mod list, else from the launcher's line, else from the name of a
/// jar, where it has a digit in it.
pub open spec fn loader_version_made(
    mods: Seq<ModView>,
    loader: Loader,
    launched: Option<Seq<Option<Seq<char>>>>,
    jar: Option<Seq<Option<Seq<char>>>>,
) -> Option<Seq<char>> {
    match listed_loader_version(mods, loader) {
        Some(v) => Some(v),
        None => match field_in(launched, 1) {
            Some(v) => Some(v),
            None => match group_in(jar, 1) {
                Some(v) => if some_digit(v) {
                    Some(v)
                } else {
                    None
                },
                None => None,
            },
        },
    }
}

pub fn loader_version_from(
    mods: &Vec<ModInfo>,
    loader: Loader,
    launched: &Option<Groups>,
    jar: &Option<Groups>,
) -> (r: Option<String>)
    ensures
        text_of(r) == loader_version_made(
            mods_of(mods@),
            loader,
            groups_of(*launched),
            groups_of(*jar),
        ),
{
    let forge = listed_version(mods, "forge");
    let neoforge = listed_version(mods, "neoforge");
    let listed = match loader {
        Loader::NeoForge => if neoforge.is_some() {
            neoforge
        } else {
            forge
        },
        Loader::Forge => forge,
        _ => if forge.is_some() {
            forge
        } else if neoforge.is_some() {
            neoforge
        } else {
            listed_version(mods, "fabricloader")
        },
    };
    if listed.is_some() {
        return listed;
    }
    let by_launcher = field_text(launched, 1);
    if by_launcher.is_some() {
        return by_launcher;
    }
    match group_text(jar, 1) {
        Some(v) => if has_digit(&v) {
            Some(v)
        } else {
            None
        },
        None => None,
    }
}

pub open spec fn loader_version_in(
    raw: Seq<char>,
    mods: Seq<ModView>,
    loader: Loader,
) -> Option<Seq<char>> {
    loader_version_made(mods, loader, captures_of(LAUNCHED@, raw), captures_of(FORGE_JAR@, raw))
}

pub fn loader_version(raw: &str, mods: &Vec<ModInfo>, loader: Loader) -> (r: Option<String>)
    ensures
        text_of(r) == loader_version_in(raw@, mods_of(mods@), loader),
{
    loader_version_from(
        mods,
        loader,
        &Pattern::new(LAUNCHED).captures(raw),
        &Pattern::new(FORGE_JAR).captures(raw),
    )
}

/// The words that start with a dash.
pub open spec fn dashed(parts: Seq<Seq<char>>) -> Seq<Seq<char>>
    decreases parts.len(),
{
    if parts.len() == 0 {
        Seq::empty()
    } else if "-"@.is_prefix_of(parts.last()) {
        dashed(parts.drop_last()).push(parts.last())
    } else {
        dashed(parts.drop_last())
    }
}

/// The flags of a line: its words that start with a dash.
pub open spec fn flags_made(line: Option<Seq<char>>) -> Seq<Seq<char>> {
    match line {
        Some(s) => dashed(words(s)),
        None => Seq::empty(),
    }
}

pub fn flags_from(line: &Option<String>) -> (r: Vec<String>)
    ensures
        texts(r@) == flags_made(text_of(*line)),
{
    let mut flags: Vec<String> = Vec::new();
    assert(texts(flags@) =~= Seq::<Seq<char>>::empty());
    if let Some(s) = line {
        let parts = split_words(s);
        let mut i: usize = 0;
        while i < parts.len()
            invariant
                i <= parts.len(),
                texts(flags@) == dashed(texts(parts@).take(i as int)),
            decreases parts.len() - i,
        {
            let ghost upto = texts(parts@).take(i + 1);
            assert(upto.drop_last() =~= texts(parts@).take(i as int));
            assert(upto.last() == parts@[i as int]@);
            if starts_with(&parts[i], "-") {
                push_text(&mut flags, parts[i].clone());
            }
            i = i + 1;
        }
        assert(texts(parts@).take(i as int) =~= texts(parts@));
    }
    flags
}

/// The flags that Java was started with.
pub open spec fn flags_in(raw: Seq<char>) -> Seq<Seq<char>> {
    flags_made(field_in(captures_of(JVM_FLAGS@, raw), 1))
}

pub fn parse_jvm_flags(raw: &str) -> (r: Vec<String>)
    ensures
        texts(r@) == flags_in(raw@),
{
    flags_from(&field_text(&Pattern::new(JVM_FLAGS).captures(raw), 1))
}

/// A size in megabytes, from its number and its unit: `g`, `k`, none for bytes, or megabytes. It
/// stops at what a `u32` holds.
pub open spec fn megabytes(n: nat, unit: Seq<char>) -> nat {
    let u = ascii_lowered(unit);
    if u == "g"@ {
        if n * 1024 > u32::MAX {
            u32::MAX as nat
        } else {
            n * 1024
        }
    } else if u == "k"@ {
        n / 1024
    } else if u == ""@ {
        n / 1048576
    } else {
        n
    }
}

/// The heap limit of a match, in megabytes: nothing where it is less than one, or where its number
/// does not fit in a `u32`.
pub open spec fn xmx_made(c: Option<Seq<Option<Seq<char>>>>) -> Option<u32> {
    match (group_in(c, 1), group_in(c, 2)) {
        (Some(digits), Some(unit)) => match parsed(digits, u32::MAX as nat) {
            Some(n) => if megabytes(n, unit) == 0 {
                None
            } else {
                Some(megabytes(n, unit) as u32)
            },
            None => None,
        },
        _ => None,
    }
}

pub fn xmx_from(found: &Option<Groups>) -> (r: Option<u32>)
    ensures
        r == xmx_made(groups_of(*found)),
{
    match (group_text(found, 1), group_text(found, 2)) {
        (Some(digits), Some(unit)) => {
            let n: u32 = match parse_u32(&digits) {
                Some(n) => n,
                None => {
                    return None;
                },
            };
            let u = to_ascii_lower(&unit);
            let mb: u32 = if same(&u, "g") {
                if n > u32::MAX / 1024 {
                    u32::MAX
                } else {
                    n * 1024
                }
            } else if same(&u, "k") {
                n / 1024
            } else if same(&u, "") {
                n / 1048576
            } else {
                n
            };
            if mb == 0 {
                None
            } else {
                Some(mb)
            }
        },
        _ => None,
    }
}

/// The heap limit that a flag sets.
pub open spec fn xmx_of(flag: Seq<char>) -> Option<u32> {
    xmx_made(captures_of(XMX@, flag))
}

pub fn parse_xmx(flag: &str) -> (r: Option<u32>)
    ensures
        r == xmx_of(flag@),
{
    xmx_from(&Pattern::new(XMX).captures(flag))
}

/// The heap limit of the first flag that sets one.
pub open spec fn xmx_among(flags: Seq<Seq<char>>) -> Option<u32>
    decreases flags.len(),
{
    if flags.len() == 0 {
        None
    } else if xmx_of(flags[0]) is Some {
        xmx_of(flags[0])
    } else {
        xmx_among(flags.skip(1))
    }
}

fn first_xmx(flags: &Vec<String>) -> (r: Option<u32>)
    ensures
        r == xmx_among(texts(flags@)),
{
    let ghost all = texts(flags@);
    let mut i: usize = 0;
    assert(all.skip(0) =~= all);
    while i < flags.len()
        invariant
            i <= flags.len(),
            all == texts(flags@),
            xmx_among(all) == xmx_among(all.skip(i as int)),
        decreases flags.len() - i,
    {
        assert(all.skip(i as int)[0] == flags@[i as int]@);
        assert(all.skip(i as int).skip(1) =~= all.skip(i + 1));
        let found = parse_xmx(&flags[i]);
        if found.is_some() {
            return found;
        }
        i = i + 1;
    }
    None
}

/// The largest heap of a match, in megabytes: a number in which commas do not count.
pub open spec fn heap_max_made(c: Option<Seq<Option<Seq<char>>>>) -> Option<u32> {
    match group_in(c, 1) {
        Some(digits) => as_u32(parsed(without(digits, ','), u32::MAX as nat)),
        None => None,
    }
}

pub fn heap_max_from(found: &Option<Groups>) -> (r: Option<u32>)
    ensures
        r == heap_max_made(groups_of(*found)),
{
    match group_text(found, 1) {
        Some(digits) => parse_u32(&remove_char(&digits, ',')),
        None => None,
    }
}

/// The largest heap that the memory line speaks of.
pub open spec fn heap_max_of(memory_line: Seq<char>) -> Option<u32> {
    heap_max_made(captures_of(HEAP_MAX@, memory_line))
}

pub fn parse_heap_max(memory_line: &str) -> (r: Option<u32>)
    ensures
        r == heap_max_of(memory_line@),
{
    heap_max_from(&Pattern::new(HEAP_MAX).captures(memory_line))
}

pub open spec fn nothing_read() -> Seq<char> {
    "no \"Description:\", no stacktrace (\"at ...\"), no \"-- ... --\" sections and no mod list. Is this a complete crash report?"@
}

/// What is missing from a report.
pub open spec fn warnings_for(r: ReportView, details: bool) -> Seq<Seq<char>> {
    let w = Seq::<Seq<char>>::empty();
    let w = if r.description is None {
        w.push("no \"Description:\" line (truncated report?)"@)
    } else {
        w
    };
    let w = if r.sections.len() == 0 {
        w.push("no \"-- ... --\" sections at all"@)
    } else {
        w
    };
    let w = if r.frames.len() == 0 {
        w.push("no \"at ...\" frames: nothing to read in the stacktrace"@)
    } else {
        w
    };
    let w = if r.mods.len() == 0 {
        w.push("no mod list (\"Mod List:\"): cannot cross-reference versions"@)
    } else {
        w
    };
    let w = if r.xmx_mb is None {
        w.push("no \"-Xmx\" in the JVM Flags"@)
    } else {
        w
    };
    let w = if !details {
        w.push("no \"-- System Details --\" section"@)
    } else {
        w
    };
    if r.loader == Loader::Unknown {
        w.push("could not tell the loader apart (Forge, Fabric, NeoForge?)"@)
    } else {
        w
    }
}

/// A report with its warnings, or an error where nothing in it could be read.
pub open spec fn completed(r: ReportView, details: bool) -> Result<ReportView, ParseErrorView> {
    if r.description is None && r.exceptions.len() == 0 && r.frames.len() == 0 && r.mods.len() == 0
        && r.sections.len() == 0 {
        Err(ParseErrorView::NotAReport { path: r.source, missing: nothing_read() })
    } else {
        Ok(ReportView { warnings: warnings_for(r, details), ..r })
    }
}

/// The contents of an attempt at a report.
pub open spec fn outcome_of(o: Result<Report, ParseError>) -> Result<ReportView, ParseErrorView> {
    match o {
        Ok(r) => Ok(r@),
        Err(e) => Err(e@),
    }
}

fn warnings_of(r: &Report, details: bool) -> (w: Vec<String>)
    ensures
        texts(w@) == warnings_for(r@, details),
{
    let mut w: Vec<String> = Vec::new();
    assert(texts(w@) =~= Seq::<Seq<char>>::empty());
    if r.description.is_none() {
        push_text(&mut w, "no \"Description:\" line (truncated report?)".to_owned());
    }
    if r.sections.len() == 0 {
        push_text(&mut w, "no \"-- ... --\" sections at all".to_owned());
    }
    if r.frames.len() == 0 {
        push_text(
            &mut w,
            "no \"at ...\" frames: nothing to read in the stacktrace".to_owned(),
        );
    }
    if r.mods.len() == 0 {
        push_text(
            &mut w,
            "no mod list (\"Mod List:\"): cannot cross-reference versions".to_owned(),
        );
    }
    if r.xmx_mb.is_none() {
        push_text(&mut w, "no \"-Xmx\" in the JVM Flags".to_owned());
    }
    if !details {
        push_text(&mut w, "no \"-- System Details --\" section".to_owned());
    }
    if r.loader == Loader::Unknown {
        push_text(
            &mut w,
            "could not tell the loader apart (Forge, Fabric, NeoForge?)".to_owned(),
        );
    }
    w
}

/// Puts the warnings into a report that was read; `details` says that it has a section with the
/// system's details.
pub fn complete(r: Report, details: bool) -> (o: Result<Report, ParseError>)
    ensures
        outcome_of(o) == completed(r@, details),
{
    if r.description.is_none() && r.exceptions.len() == 0 && r.frames.len() == 0 && r.mods.len()
        == 0 && r.sections.len() == 0 {
        return Err(
            ParseError::NotAReport {
                path: r.source,
                missing: "no \"Description:\", no stacktrace (\"at ...\"), no \"-- ... --\" sections and no mod list. Is this a complete crash report?".to_owned(),
            },
        );
    }
    let warnings = warnings_of(&r, details);
    let mut r = r;
    r.warnings = warnings;
    Ok(r)
}

/// What a report's text holds, before anything is said of what it lacks.
pub open spec fn draft_of(raw: Seq<char>, source: Seq<char>) -> ReportView {
    let mods = mods_in(raw);
    let loader = loader_in(raw, mods);
    let flags = flags_in(raw);
    let memory_line = field_in(captures_of(MEMORY@, raw), 1);
    ReportView {
        source,
        raw,
        loader,
        loader_version: loader_version_in(raw, mods, loader),
        description: field_in(captures_of(DESCRIPTION@, raw), 1),
        mc_version: field_in(captures_of(MC_VERSION@, raw), 1),
        java_version: field_in(captures_of(JAVA@, raw), 1),
        jvm_flags: flags,
        xmx_mb: xmx_among(flags),
        heap_max_mb: match memory_line {
            Some(line) => heap_max_of(line),
            None => None,
        },
        memory_line,
        mods,
        exceptions: exceptions_in(raw),
        frames: frames_in(raw),
        sections: sections_in(raw),
        warnings: Seq::empty(),
    }
}

/// What reading a report's text gives.
pub open spec fn report_of(raw: Seq<char>, source: Seq<char>) -> Result<
    ReportView,
    ParseErrorView,
> {
    completed(draft_of(raw, source), captures_of(SYSTEM_DETAILS@, raw) is Some)
}

/// Reads the text of a crash report.
pub fn parse(raw: &str, source: &str) -> (r: Result<Report, ParseError>)
    ensures
        outcome_of(r) == report_of(raw@, source@),
{
    let mods = parse_mods(raw);
    let loader = detect_loader(raw, &mods);
    let version = loader_version(raw, &mods, loader);
    let jvm_flags = parse_jvm_flags(raw);
    let xmx_mb = first_xmx(&jvm_flags);
    let memory_line = field_text(&Pattern::new(MEMORY).captures(raw), 1);
    let heap_max_mb = match &memory_line {
        Some(line) => parse_heap_max(line),
        None => None,
    };
    let draft = Report {
        source: source.to_owned(),
        raw: raw.to_owned(),
        loader,
        loader_version: version,
        description: field_text(&Pattern::new(DESCRIPTION).captures(raw), 1),
        mc_version: field_text(&Pattern::new(MC_VERSION).captures(raw), 1),
        java_version: field_text(&Pattern::new(JAVA).captures(raw), 1),
        jvm_flags,
        xmx_mb,
        heap_max_mb,
        memory_line,
        mods,
        exceptions: parse_exceptions(raw),
        frames: parse_frames(raw),
        sections: split_sections(raw),
        warnings: Vec::new(),
    };
    assert(draft@.warnings =~= Seq::<Seq<char>>::empty());
    complete(draft, Pattern::new(SYSTEM_DETAILS).is_match(raw))
}

/// A text without a byte order mark in front.
pub open spec fn unmarked(text: Seq<char>) -> Seq<char> {
    match after_prefix(text, "\u{feff}"@) {
        Some(rest) => rest,
        None => text,
    }
}

/// The text of a file: what its bytes read as, with a line feed at the end of each line and
/// without a byte order mark in front.
pub open spec fn file_text(bytes: Seq<u8>) -> Seq<char> {
    unmarked(line_feeds(utf8_lossy(bytes)))
}

/// What reading a file gives, or why it could not be read.
pub open spec fn file_outcome(read: Result<Vec<u8>, String>, path: Seq<char>) -> Result<
    ReportView,
    ParseErrorView,
> {
    match read {
        Ok(bytes) => report_of(file_text(bytes@), path),
        Err(why) => Err(ParseErrorView::Io { path, source: why@ }),
    }
}

/// Reads the crash report at `path`, of which `read` holds the bytes, or why there are none.
pub fn parse_file(path: &str, read: Result<Vec<u8>, String>) -> (r: Result<Report, ParseError>)
    ensures
        outcome_of(r) == file_outcome(read, path@),
{
    match read {
        Ok(bytes) => {
            let text = to_line_feeds(&from_utf8_lossy(&bytes));
            match strip_prefix(&text, "\u{feff}") {
                Some(rest) => parse(rest, path),
                None => parse(&text, path),
            }
        },
        Err(why) => Err(ParseError::Io { path: path.to_owned(), source: why }),
    }
}

} // verus!

//! The reports in the folders, newest first.
use vstd::prelude::*;
use crate::number::{decimal, decimal_text};
use crate::text::{
    after_prefix, cat2, chars, ends_with, join, joined, lines, lines_of, push_text, slice_text,
    starts_with, strip_prefix, text_of, texts, trim, trimmed,
};
use crate::ui::json::{json_str, json_text};

verus! {

/// How many reports are listed.
pub const MAX_LISTED: usize = 25;

/// How long a description may be in the list.
pub const MAX_DESCRIPTION: usize = 90;

/// A point in time: seconds since the start of 1970, and the nanoseconds beyond them.
#[derive(Debug, Clone, Copy, PartialEq, Eq, Structural)]
pub struct Stamp {
    pub secs: i64,
    pub nanos: u32,
}

pub open spec fn nanos_of(t: Stamp) -> int {
    t.secs * 1_000_000_000 + t.nanos
}

impl Stamp {
    pub fn total(self) -> (r: i128)
        ensures
            r == nanos_of(self),
            -10_000_000_000_000_000_000_000_000_000 < r < 10_000_000_000_000_000_000_000_000_000,
    {
        self.secs as i128 * 1_000_000_000 + self.nanos as i128
    }
}

/// A report in one of the folders.
pub struct Found {
    pub path: String,
    pub name: String,
    pub modified: Stamp,
    pub description: String,
    pub size: String,
}

pub struct FoundView {
    pub path: Seq<char>,
    pub name: Seq<char>,
    pub modified: Stamp,
    pub description: Seq<char>,
    pub size: Seq<char>,
}

impl View for Found {
    type V = FoundView;

    open spec fn view(&self) -> FoundView {
        FoundView {
            path: self.path@,
            name: self.name@,
            modified: self.modified,
            description: self.description@,
            size: self.size@,
        }
    }
}

pub open spec fn found_of(v: Seq<Found>) -> Seq<FoundView> {
    v.map_values(|f: Found| f@)
}

/// Whether a file is taken for a report by its name: any text file in a folder that was asked for,
/// and only those of the game elsewhere.
pub open spec fn report_name(name: Seq<char>, explicit: bool) -> bool {
    ".txt"@.is_suffix_of(name) && (explicit || "crash-"@.is_prefix_of(name))
}

pub fn is_report_name(name: &str, explicit: bool) -> (r: bool)
    ensures
        r == report_name(name@, explicit),
{
    ends_with(name, ".txt") && (explicit || starts_with(name, "crash-"))
}

/// Whether a file is listed: by its name, and because it is a regular file, as far as that is known.
pub open spec fn wanted(name: Seq<char>, explicit: bool, is_file: Option<bool>) -> bool {
    is_file == Some(true) && report_name(name, explicit)
}

pub fn is_wanted(name: &str, explicit: bool, is_file: Option<bool>) -> (r: bool)
    ensures
        r == wanted(name@, explicit, is_file),
{
    match is_file {
        Some(true) => is_report_name(name, explicit),
        _ => false,
    }
}

/// The first characters of a text.
pub open spec fn clipped(s: Seq<char>, max: nat) -> Seq<char> {
    if s.len() > max {
        s.take(max as int)
    } else {
        s
    }
}

/// The description that the first of the lines that has one gives.
pub open spec fn described(lines: Seq<Seq<char>>) -> Seq<char>
    decreases lines.len(),
{
    if lines.len() == 0 {
        Seq::empty()
    } else {
        match after_prefix(lines[0], "Description:"@) {
            Some(rest) => clipped(trimmed(rest), MAX_DESCRIPTION as nat),
            None => described(lines.skip(1)),
        }
    }
}

fn clip(s: &str, max: usize) -> (r: String)
    ensures
        r@ == clipped(s@, max as nat),
{
    let v = chars(s);
    if v.len() > max {
        let r = slice_text(&v, 0, max);
        assert(r@ =~= s@.take(max as int));
        r
    } else {
        s.to_owned()
    }
}

/// The description in a report's text.
pub fn peek_description(text: &str) -> (r: String)
    ensures
        r@ == described(lines_of(text@)),
{
    let list = lines(text);
    let ghost all = lines_of(text@);
    let mut i: usize = 0;
    assert(all.skip(0) =~= all);
    while i < list.len()
        invariant
            i <= list.len(),
            all == texts(list@),
            all == lines_of(text@),
            described(all) == described(all.skip(i as int)),
        decreases list.len() - i,
    {
        let line: &str = &list[i];
        assert(all.skip(i as int)[0] == line@);
        assert(all.skip(i as int).skip(1) =~= all.skip(i + 1));
        if let Some(rest) = strip_prefix(line, "Description:") {
            return clip(trim(rest), MAX_DESCRIPTION);
        }
        i = i + 1;
    }
    let r = String::new();
    assert(r@ =~= described(all.skip(i as int)));
    r
}

/// How long ago something was, in whole seconds; none where it is yet to come.
pub open spec fn age_of(now: Stamp, then: Stamp) -> nat {
    if nanos_of(now) < nanos_of(then) {
        0
    } else {
        ((nanos_of(now) - nanos_of(then)) / 1_000_000_000) as nat
    }
}

pub open spec fn age_text(secs: nat) -> Seq<char> {
    if secs < 60 {
        "just now"@
    } else if secs < 3600 {
        decimal(secs / 60) + " min ago"@
    } else if secs < 86400 {
        decimal(secs / 3600) + " h ago"@
    } else if secs / 86400 == 1 {
        "yesterday"@
    } else {
        decimal(secs / 86400) + " days ago"@
    }
}

pub fn age_label(now: Stamp, then: Stamp) -> (r: String)
    ensures
        r@ == age_text(age_of(now, then)),
{
    let a = now.total();
    let b = then.total();
    let secs: i128 = if a < b {
        0
    } else {
        (a - b) / 1_000_000_000
    };
    if secs < 60 {
        return "just now".to_owned();
    }
    if secs < 3600 {
        return cat2(&decimal_text((secs / 60) as u64), " min ago");
    }
    if secs < 86400 {
        return cat2(&decimal_text((secs / 3600) as u64), " h ago");
    }
    let days: u64 = (secs / 86400) as u64;
    if days == 1 {
        "yesterday".to_owned()
    } else {
        cat2(&decimal_text(days), " days ago")
    }
}

/// A size in words, of which `megabytes` gives the number of megabytes.
pub open spec fn size_text(bytes: nat, megabytes: Seq<char>) -> Seq<char> {
    if bytes >= 1024 * 1024 {
        megabytes + " MB"@
    } else if bytes < 1024 {
        "1 KB"@
    } else {
        decimal(bytes / 1024) + " KB"@
    }
}

pub fn size_label(bytes: u64, megabytes: &str) -> (r: String)
    ensures
        r@ == size_text(bytes as nat, megabytes@),
{
    if bytes >= 1024 * 1024 {
        cat2(megabytes, " MB")
    } else if bytes < 1024 {
        "1 KB".to_owned()
    } else {
        cat2(&decimal_text(bytes / 1024), " KB")
    }
}

/// What the file system says of a file. `megabytes` gives the number of megabytes of its size.
pub struct Meta {
    pub is_file: bool,
    pub modified: Option<Stamp>,
    pub size: u64,
    pub megabytes: String,
}

pub struct MetaView {
    pub is_file: bool,
    pub modified: Option<Stamp>,
    pub size: nat,
    pub megabytes: Seq<char>,
}

impl View for Meta {
    type V = MetaView;

    open spec fn view(&self) -> MetaView {
        MetaView {
            is_file: self.is_file,
            modified: self.modified,
            size: self.size as nat,
            megabytes: self.megabytes@,
        }
    }
}

/// What stands in a folder. What could not be read of it is missing.
pub struct Entry {
    pub path: String,
    pub name: String,
    pub meta: Option<Meta>,
    pub text: Option<String>,
}

pub struct EntryView {
    pub path: Seq<char>,
    pub name: Seq<char>,
    pub meta: Option<MetaView>,
    pub text: Option<Seq<char>>,
}

impl View for Entry {
    type V = EntryView;

    open spec fn view(&self) -> EntryView {
        EntryView {
            path: self.path@,
            name: self.name@,
            meta: match self.meta {
                Some(m) => Some(m@),
                None => None,
            },
            text: text_of(self.text),
        }
    }
}

pub open spec fn entries_of(v: Seq<Entry>) -> Seq<EntryView> {
    v.map_values(|e: Entry| e@)
}

/// A folder that is looked in: whether it was asked for, and what stands in it, if it could be
/// opened.
pub struct Folder {
    pub explicit: bool,
    pub entries: Option<Vec<Entry>>,
}

pub struct FolderView {
    pub explicit: bool,
    pub entries: Option<Seq<EntryView>>,
}

impl View for Folder {
    type V = FolderView;

    open spec fn view(&self) -> FolderView {
        FolderView {
            explicit: self.explicit,
            entries: match self.entries {
                Some(v) => Some(entries_of(v@)),
                None => None,
            },
        }
    }
}

pub open spec fn folders_of(v: Seq<Folder>) -> Seq<FolderView> {
    v.map_values(|f: Folder| f@)
}

/// The report that an entry is, if it is one: a regular file with a name that is wanted. One of
/// unknown time counts as from the start of 1970.
pub open spec fn found_at(e: EntryView, explicit: bool) -> Option<FoundView> {
    match e.meta {
        Some(m) => if wanted(e.name, explicit, Some(m.is_file)) {
            Some(
                FoundView {
                    path: e.path,
                    name: e.name,
                    modified: match m.modified {
                        Some(t) => t,
                        None => Stamp { secs: 0, nanos: 0 },
                    },
                    description: match e.text {
                        Some(text) => described(lines_of(text)),
                        None => Seq::empty(),
                    },
                    size: size_text(m.size, m.megabytes),
                },
            )
        } else {
            None
        },
        None => None,
    }
}

/// The reports among some entries, in order.
pub open spec fn found_in(entries: Seq<EntryView>, explicit: bool) -> Seq<FoundView>
    decreases entries.len(),
{
    if entries.len() == 0 {
        Seq::empty()
    } else {
        match found_at(entries.last(), explicit) {
            Some(f) => found_in(entries.drop_last(), explicit).push(f),
            None => found_in(entries.drop_last(), explicit),
        }
    }
}

/// The reports in some folders, in order. A folder that could not be opened is passed over.
pub open spec fn found_among(folders: Seq<FolderView>) -> Seq<FoundView>
    decreases folders.len(),
{
    if folders.len() == 0 {
        Seq::empty()
    } else {
        match folders.last().entries {
            Some(entries) => found_among(folders.drop_last()) + found_in(
                entries,
                folders.last().explicit,
            ),
            None => found_among(folders.drop_last()),
        }
    }
}

fn find_at(e: &Entry, explicit: bool) -> (r: Option<Found>)
    ensures
        match r {
            Some(f) => found_at(e@, explicit) == Some(f@),
            None => found_at(e@, explicit) is None,
        },
{
    match &e.meta {
        Some(m) => {
            if !is_wanted(&e.name, explicit, Some(m.is_file)) {
                return None;
            }
            let modified = match m.modified {
                Some(t) => t,
                None => Stamp { secs: 0, nanos: 0 },
            };
            let description = match &e.text {
                Some(text) => peek_description(text),
                None => String::new(),
            };
            Some(
                Found {
                    path: e.path.clone(),
                    name: e.name.clone(),
                    modified,
                    description,
                    size: size_label(m.size, &m.megabytes),
                },
            )
        },
        None => None,
    }
}

fn push_found(list: &mut Vec<Found>, entries: &Vec<Entry>, explicit: bool)
    ensures
        found_of(final(list)@) == found_of(old(list)@) + found_in(entries_of(entries@), explicit),
{
    let ghost start = found_of(list@);
    let ghost all = entries_of(entries@);
    let mut i: usize = 0;
    assert(found_of(list@) =~= start + found_in(all.take(0), explicit));
    while i < entries.len()
        invariant
            i <= entries.len(),
            all == entries_of(entries@),
            found_of(list@) == start + found_in(all.take(i as int), explicit),
        decreases entries.len() - i,
    {
        let ghost before = list@;
        assert(all.take(i + 1).drop_last() =~= all.take(i as int));
        assert(all.take(i + 1).last() == entries@[i as int]@);
        if let Some(f) = find_at(&entries[i], explicit) {
            list.push(f);
            assert(found_of(list@) =~= found_of(before).push(f@));
            assert(found_of(list@) =~= start + found_in(all.take(i + 1), explicit));
        }
        i = i + 1;
    }
    assert(all.take(i as int) =~= all);
}

/// The reports in the folders.
pub fn find_reports(folders: &Vec<Folder>) -> (r: Vec<Found>)
    ensures
        found_of(r@) == found_among(folders_of(folders@)),
{
    let ghost all = folders_of(folders@);
    let mut r: Vec<Found> = Vec::new();
    let mut i: usize = 0;
    assert(found_of(r@) =~= found_among(all.take(0)));
    while i < folders.len()
        invariant
            i <= folders.len(),
            all == folders_of(folders@),
            found_of(r@) == found_among(all.take(i as int)),
        decreases folders.len() - i,
    {
        assert(all.take(i + 1).drop_last() =~= all.take(i as int));
        assert(all.take(i + 1).last() == folders@[i as int]@);
        if let Some(entries) = &folders[i].entries {
            push_found(&mut r, entries, folders[i].explicit);
        }
        i = i + 1;
    }
    assert(all.take(i as int) =~= all);
    r
}

/// How many of the reports in front are at least as new as `t`.
pub open spec fn newer_in_front(list: Seq<FoundView>, t: Stamp) -> nat
    decreases list.len(),
{
    if list.len() == 0 || nanos_of(list[0].modified) < nanos_of(t) {
        0
    } else {
        1 + newer_in_front(list.skip(1), t)
    }
}

/// The list with `f` behind those that are at least as new.
pub open spec fn with_found(list: Seq<FoundView>, f: FoundView) -> Seq<FoundView> {
    list.insert(newer_in_front(list, f.modified) as int, f)
}

/// The reports, newest first, those of one time in the order in which they were found.
pub open spec fn newest_first(found: Seq<FoundView>) -> Seq<FoundView>
    decreases found.len(),
{
    if found.len() == 0 {
        Seq::empty()
    } else {
        with_found(newest_first(found.drop_last()), found.last())
    }
}

fn place_of(list: &Vec<Found>, t: Stamp) -> (r: usize)
    ensures
        r == newer_in_front(found_of(list@), t),
        r <= list.len(),
{
    let ghost all = found_of(list@);
    let mut i: usize = 0;
    assert(all.skip(0) =~= all);
    while i < list.len() && list[i].modified.total() >= t.total()
        invariant
            i <= list.len(),
            all == found_of(list@),
            newer_in_front(all, t) == i + newer_in_front(all.skip(i as int), t),
        ensures
            i <= list.len(),
            newer_in_front(all, t) == i,
        decreases list.len() - i,
    {
        assert(all.skip(i as int)[0] == list@[i as int]@);
        assert(all.skip(i as int).skip(1) =~= all.skip(i + 1));
        i = i + 1;
    }
    i
}

fn sort_newest(found: Vec<Found>) -> (r: Vec<Found>)
    ensures
        found_of(r@) == newest_first(found_of(found@)),
{
    let ghost all = found_of(found@);
    let mut rest = found;
    let mut r: Vec<Found> = Vec::new();
    let ghost mut n: int = 0;
    assert(all.take(0) =~= Seq::empty());
    assert(found_of(r@) =~= newest_first(all.take(0)));
    assert(found_of(rest@) =~= all.skip(0));
    while rest.len() > 0
        invariant
            0 <= n <= all.len(),
            found_of(rest@) == all.skip(n),
            found_of(r@) == newest_first(all.take(n)),
        decreases rest.len(),
    {
        let ghost left = rest@;
        assert(all.skip(n).len() == left.len());
        assert(found_of(left)[0] == left[0]@);
        let f = rest.remove(0);
        let ghost before = r@;
        let i = place_of(&r, f.modified);
        r.insert(i, f);
        proof {
            assert(all.skip(n)[0] == f@);
            assert(all.take(n + 1).drop_last() =~= all.take(n));
            assert(all.take(n + 1).last() == f@);
            assert(found_of(r@) =~= with_found(found_of(before), f@));
            assert(found_of(rest@) =~= found_of(left).skip(1));
            assert(all.skip(n).skip(1) =~= all.skip(n + 1));
            n = n + 1;
        }
    }
    assert(all.take(n) =~= all);
    r
}

/// A report in the list, as JSON.
pub open spec fn found_object(f: FoundView, now: Stamp) -> Seq<char> {
    "{\"path\":"@ + json_text(f.path) + ",\"name\":"@ + json_text(f.name) + ",\"size\":\""@
        + f.size + "\",\"age\":"@ + json_text(age_text(age_of(now, f.modified)))
        + ",\"description\":"@ + json_text(f.description) + "}"@
}

fn found_json(f: &Found, now: Stamp) -> (r: String)
    ensures
        r@ == found_object(f@, now),
{
    let mut r = "{\"path\":".to_owned();
    r.append(&json_str(&f.path));
    r.append(",\"name\":");
    r.append(&json_str(&f.name));
    r.append(",\"size\":\"");
    r.append(&f.size);
    r.append("\",\"age\":");
    r.append(&json_str(&age_label(now, f.modified)));
    r.append(",\"description\":");
    r.append(&json_str(&f.description));
    r.append("}");
    r
}

/// The reports that are listed: the newest.
pub open spec fn listed(found: Seq<FoundView>) -> Seq<FoundView> {
    let all = newest_first(found);
    if all.len() > MAX_LISTED {
        all.take(MAX_LISTED as int)
    } else {
        all
    }
}

/// The list of reports as JSON.
pub open spec fn listing_array(found: Seq<FoundView>, now: Stamp) -> Seq<char> {
    "["@ + joined(listed(found).map_values(|f: FoundView| found_object(f, now)), ","@) + "]"@
}

/// Lists some reports, the newest first.
pub fn listing_json(found: Vec<Found>, now: Stamp) -> (r: String)
    ensures
        r@ == listing_array(found_of(found@), now),
{
    let ghost shown = listed(found_of(found@));
    let ghost all = shown.map_values(|f: FoundView| found_object(f, now));
    let mut sorted = sort_newest(found);
    sorted.truncate(MAX_LISTED);
    assert(found_of(sorted@) =~= shown);
    let mut items: Vec<String> = Vec::new();
    let mut i: usize = 0;
    assert(texts(items@) =~= all.take(0));
    while i < sorted.len()
        invariant
            i <= sorted.len(),
            shown == found_of(sorted@),
            all == shown.map_values(|f: FoundView| found_object(f, now)),
            texts(items@) == all.take(i as int),
        decreases sorted.len() - i,
    {
        push_text(&mut items, found_json(&sorted[i], now));
        assert(texts(items@) =~= all.take(i + 1));
        i = i + 1;
    }
    assert(all.take(i as int) =~= all);
    let mut r = "[".to_owned();
    r.append(&join(&items, ","));
    r.append("]");
    r
}

/// Lists the reports in the folders, the newest first.
pub fn recent_json(folders: &Vec<Folder>, now: Stamp) -> (r: String)
    ensures
        r@ == listing_array(found_among(folders_of(folders@)), now),
{
    listing_json(find_reports(folders), now)
}

} // verus!

//! The client and the server do not register the same things.
use vstd::prelude::*;
use crate::model::{
    env_text, mod_with_id, Confidence, Diagnosis, DiagnosisView, ModView, Report, ReportView,
};
use crate::number::{decimal, decimal_text};
use crate::pattern::{group, matches_of, Groups, Pattern};
use crate::rules::common::{new_lines, no_lines, preview, previewed, verdict_of};
use crate::rules::symbol::{label_or, label_text};
use crate::text::{
    before_first, cat2, cat3, cat4, contains, cut_at, find, find_of, has, head, holds, join, joined,
    lines, lines_of, push_text, same, split_once, starts_with, text_of, texts, trim, trimmed,
    CharSet,
};

verus! {

pub const REGISTRY_ID: &'static str = r"([a-z][a-z0-9_]{1,63}):([a-z0-9_./\-]{1,64})";

pub const MOD_OF_ENTRY: &'static str = r"(?:mod:\s*|from mod\s+)([\w\-]{2,64})";

/// The registry ids that a report says are missing, and the mods that it says they come from.
pub struct MissingIds {
    pub ids: Vec<String>,
    pub mods: Vec<String>,
}

pub struct MissingView {
    pub ids: Seq<Seq<char>>,
    pub mods: Seq<Seq<char>>,
}

impl View for MissingIds {
    type V = MissingView;

    open spec fn view(&self) -> MissingView {
        MissingView { ids: texts(self.ids@), mods: texts(self.mods@) }
    }
}

/// A list with one more text, unless it has it already.
pub open spec fn with_new(list: Seq<Seq<char>>, s: Seq<char>) -> Seq<Seq<char>> {
    if list.contains(s) {
        list
    } else {
        list.push(s)
    }
}

fn add_new(list: &mut Vec<String>, s: String)
    ensures
        texts(final(list)@) == with_new(texts(old(list)@), s@),
{
    if !holds(list, &s) {
        push_text(list, s);
    }
}

pub open spec fn matches_view(v: Seq<Groups>) -> Seq<Seq<Option<Seq<char>>>> {
    v.map_values(|g: Groups| g@)
}

/// A list of ids with those of some matches, each a namespace and a path.
pub open spec fn with_ids(
    list: Seq<Seq<char>>,
    found: Seq<Seq<Option<Seq<char>>>>,
) -> Seq<Seq<char>>
    decreases found.len(),
{
    if found.len() == 0 {
        list
    } else {
        let before = with_ids(list, found.drop_last());
        match (group(found.last(), 1), group(found.last(), 2)) {
            (Some(ns), Some(path)) => with_new(before, ns + ":"@ + path),
            _ => before,
        }
    }
}

/// A list of mods with those of some matches.
pub open spec fn with_mods(
    list: Seq<Seq<char>>,
    found: Seq<Seq<Option<Seq<char>>>>,
) -> Seq<Seq<char>>
    decreases found.len(),
{
    if found.len() == 0 {
        list
    } else {
        let before = with_mods(list, found.drop_last());
        match group(found.last(), 1) {
            Some(id) => with_new(before, id),
            None => before,
        }
    }
}

impl MissingIds {
    pub fn new() -> (r: Self)
        ensures
            r@ == (MissingView { ids: no_lines(), mods: no_lines() }),
    {
        MissingIds { ids: new_lines(), mods: new_lines() }
    }

    /// Adds the ids and the mods that were found.
    pub fn add(&mut self, ids: &Vec<Groups>, mods: &Vec<Groups>)
        ensures
            final(self)@ == (MissingView {
                ids: with_ids(old(self)@.ids, matches_view(ids@)),
                mods: with_mods(old(self)@.mods, matches_view(mods@)),
            }),
    {
        let ghost all = matches_view(ids@);
        let ghost before = self@;
        let mut i: usize = 0;
        while i < ids.len()
            invariant
                i <= ids.len(),
                all == matches_view(ids@),
                self@.ids == with_ids(before.ids, all.take(i as int)),
                self@.mods == before.mods,
            decreases ids.len() - i,
        {
            assert(all.take(i + 1).drop_last() =~= all.take(i as int));
            assert(all.take(i + 1).last() == ids@[i as int]@);
            if let (Some(ns), Some(path)) = (ids[i].get(1), ids[i].get(2)) {
                add_new(&mut self.ids, cat3(ns, ":", path));
            }
            i = i + 1;
        }
        assert(all.take(i as int) =~= all);
        let ghost all_mods = matches_view(mods@);
        let ghost middle = self@;
        let mut j: usize = 0;
        while j < mods.len()
            invariant
                j <= mods.len(),
                all_mods == matches_view(mods@),
                self@.ids == middle.ids,
                self@.mods == with_mods(before.mods, all_mods.take(j as int)),
            decreases mods.len() - j,
        {
            assert(all_mods.take(j + 1).drop_last() =~= all_mods.take(j as int));
            assert(all_mods.take(j + 1).last() == mods@[j as int]@);
            if let Some(id) = mods[j].text(1) {
                add_new(&mut self.mods, id);
            }
            j = j + 1;
        }
        assert(all_mods.take(j as int) =~= all_mods);
    }
}

/// What is read of a line: behind the word `entries`, where it is the marker's line.
pub open spec fn entry_text(line: Seq<char>, marker_line: bool) -> Seq<char> {
    if marker_line {
        match cut_at(line, "entries"@) {
            Some((_, rest)) => rest,
            None => line,
        }
    } else {
        line
    }
}

/// Where the ids stand: behind an arrow, if there is one, and before a bracket.
pub open spec fn id_text(body: Seq<char>) -> Seq<char> {
    match cut_at(body, "->"@) {
        Some((_, rhs)) => before_first(rhs, CharSet::Just('(')),
        None => before_first(body, CharSet::Just('(')),
    }
}

/// What is missing, with what one line says.
pub open spec fn collected(m: MissingView, line: Seq<char>, marker_line: bool) -> MissingView {
    let body = entry_text(line, marker_line);
    MissingView {
        ids: with_ids(m.ids, matches_of(REGISTRY_ID@, id_text(body))),
        mods: with_mods(m.mods, matches_of(MOD_OF_ENTRY@, body)),
    }
}

/// The patterns of the ids and of the mods, compiled once.
struct IdPatterns {
    ids: Pattern,
    mods: Pattern,
}

impl IdPatterns {
    spec fn ready(self) -> bool {
        self.ids@ == REGISTRY_ID@ && self.mods@ == MOD_OF_ENTRY@
    }
}

fn body_text<'a>(line: &'a str, marker_line: bool) -> (r: &'a str)
    ensures
        r@ == entry_text(line@, marker_line),
{
    if marker_line {
        match split_once(line, "entries") {
            Some((_, rest)) => rest,
            None => line,
        }
    } else {
        line
    }
}

fn target_text<'a>(body: &'a str) -> (r: &'a str)
    ensures
        r@ == id_text(body@),
{
    match split_once(body, "->") {
        Some((_, rhs)) => head(rhs, CharSet::Just('(')),
        None => head(body, CharSet::Just('(')),
    }
}

fn collect_ids(p: &IdPatterns, line: &str, m: &mut MissingIds, marker_line: bool)
    requires
        p.ready(),
    ensures
        final(m)@ == collected(old(m)@, line@, marker_line),
{
    let body = body_text(line, marker_line);
    m.add(&p.ids.captures_iter(target_text(body)), &p.mods.captures_iter(body));
}

/// What becomes of a line below the marker.
#[derive(Debug, Clone, Copy, PartialEq, Eq, Structural)]
pub enum LineRole {
    /// It is read.
    Read,
    /// It is passed over.
    Skip,
    /// Nothing is read from here on.
    Stop,
}

/// What becomes of a line below the marker, by what it holds and by whether ids were found above
/// it: the stack trace and the next section end the list, and so does an empty line below an id.
pub open spec fn role_of(line: Seq<char>, found: bool) -> LineRole {
    if "at "@.is_prefix_of(line) || "--"@.is_prefix_of(line) || "..."@.is_prefix_of(line) {
        LineRole::Stop
    } else if line.len() == 0 {
        if found {
            LineRole::Stop
        } else {
            LineRole::Skip
        }
    } else {
        LineRole::Read
    }
}

pub fn line_role(line: &str, found: bool) -> (r: LineRole)
    ensures
        r == role_of(line@, found),
{
    if starts_with(line, "at ") || starts_with(line, "--") || starts_with(line, "...") {
        LineRole::Stop
    } else if line.is_empty() {
        if found {
            LineRole::Stop
        } else {
            LineRole::Skip
        }
    } else {
        LineRole::Read
    }
}

/// What is missing, with what the lines below the marker say.
pub open spec fn collected_below(m: MissingView, below: Seq<Seq<char>>) -> MissingView
    decreases below.len(),
{
    if below.len() == 0 {
        m
    } else {
        let line = trimmed(below[0]);
        match role_of(line, m.ids.len() > 0) {
            LineRole::Stop => m,
            LineRole::Skip => collected_below(m, below.skip(1)),
            LineRole::Read => collected_below(collected(m, line, false), below.skip(1)),
        }
    }
}

/// The lines that are read below the marker's: forty at most.
pub open spec fn lines_below(all: Seq<Seq<char>>) -> Seq<Seq<char>> {
    if all.len() <= 1 {
        Seq::empty()
    } else if all.len() <= 41 {
        all.skip(1)
    } else {
        all.subrange(1, 41)
    }
}

/// What a report says is missing, at and below the first place of the marker.
pub open spec fn missing_in(raw: Seq<char>, marker: Seq<char>) -> MissingView {
    let none = MissingView { ids: no_lines(), mods: no_lines() };
    match find_of(raw, marker) {
        None => none,
        Some(i) => {
            let all = lines_of(raw.skip(i + marker.len()));
            let first = if all.len() > 0 {
                collected(none, marker + all[0], true)
            } else {
                none
            };
            collected_below(first, lines_below(all))
        },
    }
}

pub fn missing_registry_ids(raw: &str, marker: &str) -> (r: MissingIds)
    ensures
        r@ == missing_in(raw@, marker@),
{
    let mut m = MissingIds::new();
    let i: usize = match find(raw, marker) {
        Some(i) => i,
        None => {
            return m;
        },
    };
    let n: usize = raw.unicode_len();
    let rest = raw.substring_char(i + marker.unicode_len(), n);
    assert(rest@ =~= raw@.skip(i + marker@.len()));
    let all = lines(rest);
    let ghost seen = texts(all@);
    let p = IdPatterns { ids: Pattern::new(REGISTRY_ID), mods: Pattern::new(MOD_OF_ENTRY) };
    if all.len() > 0 {
        assert(seen[0] == all@[0]@);
        collect_ids(&p, &cat2(marker, &all[0]), &mut m, true);
    }
    let ghost below = lines_below(seen);
    let ghost goal = collected_below(m@, below);
    let mut k: usize = 1;
    assert(below.skip(0) =~= below);
    while k < all.len() && k <= 40
        invariant
            1 <= k <= 41,
            p.ready(),
            seen == texts(all@),
            below == lines_below(seen),
            k == 1 || k <= all.len(),
            goal == missing_in(raw@, marker@),
            goal == collected_below(m@, below.skip(k - 1)),
        decreases all.len() - k,
    {
        let ghost rest = below.skip(k - 1);
        assert(rest[0] == all@[k as int]@);
        assert(rest.skip(1) =~= below.skip(k as int));
        let line = trim(&all[k]);
        match line_role(line, m.ids.len() > 0) {
            LineRole::Stop => {
                return m;
            },
            LineRole::Skip => {},
            LineRole::Read => collect_ids(&p, line, &mut m, false),
        }
        k = k + 1;
    }
    assert(seen.len() == all.len());
    assert(below.skip(k - 1).len() == 0);
    m
}

/// The side that lacks the entries.
pub open spec fn lacking_side(raw: Seq<char>) -> Seq<char> {
    if has(raw, "from server"@) || has(raw, "from the server"@) {
        "the client"@
    } else if has(raw, "from client"@) || has(raw, "from the client"@) {
        "the server"@
    } else {
        "one of the two sides (client or server)"@
    }
}

fn side_of(r: &Report) -> (s: &'static str)
    ensures
        s@ == lacking_side(r@.raw),
{
    if r.contains("from server") || r.contains("from the server") {
        "the client"
    } else if r.contains("from client") || r.contains("from the client") {
        "the server"
    } else {
        "one of the two sides (client or server)"
    }
}

/// A mod by its id, as it is named.
pub open spec fn named_mod(mods: Seq<ModView>, id: Seq<char>) -> Seq<char> {
    label_or(mod_with_id(mods, id), id + " (not in this report's mod list)"@)
}

fn name_mod(r: &Report, id: &str) -> (s: String)
    ensures
        s@ == named_mod(r@.mods, id@),
{
    label_text(r.mod_by_id(id), &cat2(id, " (not in this report's mod list)"))
}

pub open spec fn namespace_of(id: Seq<char>) -> Seq<char> {
    before_first(id, CharSet::Just(':'))
}

/// The mods that some ids come from, each once: those of the game itself come from none.
pub open spec fn owners_of_ids(mods: Seq<ModView>, ids: Seq<Seq<char>>) -> Seq<Seq<char>>
    decreases ids.len(),
{
    if ids.len() == 0 {
        no_lines()
    } else {
        let before = owners_of_ids(mods, ids.drop_last());
        let ns = namespace_of(ids.last());
        if ns == "minecraft"@ {
            before
        } else {
            with_new(before, named_mod(mods, ns))
        }
    }
}

/// Those mods, and behind them the mods of some more ids.
pub open spec fn with_named(
    list: Seq<Seq<char>>,
    mods: Seq<ModView>,
    ids: Seq<Seq<char>>,
) -> Seq<Seq<char>>
    decreases ids.len(),
{
    if ids.len() == 0 {
        list
    } else {
        with_new(with_named(list, mods, ids.drop_last()), named_mod(mods, ids.last()))
    }
}

pub open spec fn registry_culprits(r: ReportView, m: MissingView) -> Seq<Seq<char>> {
    with_named(owners_of_ids(r.mods, m.ids), r.mods, m.mods)
}

fn culprits_of(r: &Report, m: &MissingIds) -> (c: Vec<String>)
    ensures
        texts(c@) == registry_culprits(r@, m@),
{
    let mut c = new_lines();
    let ghost ids = texts(m.ids@);
    let mut i: usize = 0;
    while i < m.ids.len()
        invariant
            i <= m.ids.len(),
            ids == texts(m.ids@),
            texts(c@) == owners_of_ids(r@.mods, ids.take(i as int)),
        decreases m.ids.len() - i,
    {
        assert(ids.take(i + 1).drop_last() =~= ids.take(i as int));
        assert(ids.take(i + 1).last() == m.ids@[i as int]@);
        let ns = head(&m.ids[i], CharSet::Just(':'));
        if !same(ns, "minecraft") {
            add_new(&mut c, name_mod(r, ns));
        }
        i = i + 1;
    }
    assert(ids.take(i as int) =~= ids);
    let ghost owners = texts(c@);
    let ghost mods = texts(m.mods@);
    let mut j: usize = 0;
    while j < m.mods.len()
        invariant
            j <= m.mods.len(),
            mods == texts(m.mods@),
            texts(c@) == with_named(owners, r@.mods, mods.take(j as int)),
        decreases m.mods.len() - j,
    {
        assert(mods.take(j + 1).drop_last() =~= mods.take(j as int));
        assert(mods.take(j + 1).last() == m.mods@[j as int]@);
        add_new(&mut c, name_mod(r, &m.mods[j]));
        j = j + 1;
    }
    assert(mods.take(j as int) =~= mods);
    c
}

/// The first line that holds the marker.
pub open spec fn line_with(all: Seq<Seq<char>>, marker: Seq<char>) -> Option<Seq<char>>
    decreases all.len(),
{
    if all.len() == 0 {
        None
    } else if has(all[0], marker) {
        Some(all[0])
    } else {
        line_with(all.skip(1), marker)
    }
}

fn find_line(raw: &str, marker: &str) -> (r: Option<String>)
    ensures
        text_of(r) == line_with(lines_of(raw@), marker@),
{
    let all = lines(raw);
    let ghost seen = texts(all@);
    let mut i: usize = 0;
    assert(seen.skip(0) =~= seen);
    while i < all.len()
        invariant
            i <= all.len(),
            seen == texts(all@),
            seen == lines_of(raw@),
            line_with(seen, marker@) == line_with(seen.skip(i as int), marker@),
        decreases all.len() - i,
    {
        assert(seen.skip(i as int)[0] == all@[i as int]@);
        assert(seen.skip(i as int).skip(1) =~= seen.skip(i + 1));
        if contains(&all[i], marker) {
            return Some(all[i].clone());
        }
        i = i + 1;
    }
    None
}

pub open spec fn registry_cause(side: Seq<char>, m: MissingView) -> Seq<char> {
    let what = if m.ids.len() == 0 {
        "the registry entries the other side never registered"@
    } else {
        previewed(m.ids, 8)
    };
    "Missing registry entries: the client and the server are not running the same mods, and "@
        + side + " is missing "@ + what
}

pub open spec fn registry_evidence(
    r: ReportView,
    marker: Seq<char>,
    m: MissingView,
) -> Seq<Seq<char>> {
    let e = match line_with(lines_of(r.raw), marker) {
        Some(line) => no_lines().push("report line: "@ + trimmed(line)),
        None => no_lines(),
    };
    let e = if m.ids.len() > 0 {
        e.push("missing IDs ("@ + decimal(m.ids.len()) + "): "@ + previewed(m.ids, 8))
    } else {
        e
    };
    let e = if m.mods.len() > 0 {
        e.push("mods that register them: "@ + joined(m.mods, ", "@))
    } else {
        e
    };
    e.push("environment: "@ + env_text(r))
}

pub open spec fn registry_fix(side: Seq<char>, m: MissingView) -> Seq<Seq<char>> {
    let f = if m.mods.len() > 0 {
        no_lines().push("install "@ + joined(m.mods, ", "@) + " on "@ + side)
    } else if m.ids.len() > 0 {
        no_lines().push("install on "@ + side + " the mod that registers those IDs"@)
    } else {
        no_lines()
    };
    f.push(
        "keep client and server on the same mod list and the same versions (compare them one by one)"@,
    ).push("for a modpack server: resync the client's mods folder with the server's"@)
}

pub open spec fn registry_dev_tip(m: MissingView) -> Seq<Seq<char>> {
    if m.ids.len() == 0 {
        no_lines().push(
            "if you are a dev, that registry content has to exist on both sides: register it with DeferredRegister on the mod event bus, which runs on the client and on the server"@,
        )
    } else {
        no_lines().push(
            "if you are a dev, the missing IDs are "@ + previewed(m.ids, 6)
                + ". Those come from a registry your mod fills: register with DeferredRegister on the mod event bus so both sides get them, and never add game content from a client-only event like FMLClientSetupEvent"@,
        )
    }
}

/// The diagnosis for registry entries that are missing.
pub open spec fn registry_diagnosis(
    r: ReportView,
    marker: Seq<char>,
    m: MissingView,
) -> DiagnosisView {
    let side = lacking_side(r.raw);
    let culprits = registry_culprits(r, m);
    DiagnosisView {
        culprit: if culprits.len() == 0 {
            None
        } else {
            Some(joined(culprits, ", "@))
        },
        cause: registry_cause(side, m),
        evidence: registry_evidence(r, marker, m),
        fix: registry_fix(side, m),
        dev_tip: registry_dev_tip(m),
        confidence: if m.ids.len() > 0 || m.mods.len() > 0 {
            Confidence::High
        } else {
            Confidence::Medium
        },
    }
}

/// The words by which a report says that registry entries are missing.
pub open spec fn registry_marker(raw: Seq<char>) -> Option<Seq<char>> {
    if has(raw, "Missing registry entries"@) {
        Some("Missing registry entries"@)
    } else if has(raw, "Failed to synchronize registry data"@) {
        Some("Failed to synchronize registry data"@)
    } else {
        None
    }
}

/// What the rule finds: something where the report says that registry entries are missing.
pub open spec fn registry_verdict(r: ReportView) -> Option<DiagnosisView> {
    match registry_marker(r.raw) {
        Some(marker) => Some(registry_diagnosis(r, marker, missing_in(r.raw, marker))),
        None => None,
    }
}

/// Names the mods that one of the two sides lacks.
pub fn diagnose_registry(r: &Report, marker: &str, m: &MissingIds) -> (d: Diagnosis)
    ensures
        d@ == registry_diagnosis(r@, marker@, m@),
{
    let side = side_of(r);
    let culprits = culprits_of(r, m);
    assert(texts(culprits@).len() == culprits.len());
    assert(m@.ids.len() == m.ids.len());
    assert(m@.mods.len() == m.mods.len());
    let culprit = if culprits.len() == 0 {
        None
    } else {
        Some(join(&culprits, ", "))
    };
    let confidence = if m.ids.len() > 0 || m.mods.len() > 0 {
        Confidence::High
    } else {
        Confidence::Medium
    };
    let what = if m.ids.len() == 0 {
        "the registry entries the other side never registered".to_owned()
    } else {
        preview(&m.ids, 8)
    };
    let cause = cat4(
        "Missing registry entries: the client and the server are not running the same mods, and ",
        side,
        " is missing ",
        &what,
    );
    let mut evidence = new_lines();
    let mut fix = new_lines();
    let mut dev_tip = new_lines();

    if let Some(line) = find_line(&r.raw, marker) {
        push_text(&mut evidence, cat2("report line: ", trim(&line)));
    }
    if m.ids.len() > 0 {
        push_text(
            &mut evidence,
            cat4(
                "missing IDs (",
                &decimal_text(m.ids.len() as u64),
                "): ",
                &preview(&m.ids, 8),
            ),
        );
    }
    if m.mods.len() > 0 {
        push_text(&mut evidence, cat2("mods that register them: ", &join(&m.mods, ", ")));
    }
    push_text(&mut evidence, cat2("environment: ", &r.env_summary()));

    if m.mods.len() > 0 {
        push_text(&mut fix, cat4("install ", &join(&m.mods, ", "), " on ", side));
    } else if m.ids.len() > 0 {
        push_text(&mut fix, cat3("install on ", side, " the mod that registers those IDs"));
    }
    push_text(
        &mut fix,
        "keep client and server on the same mod list and the same versions (compare them one by one)".to_owned(),
    );
    push_text(
        &mut fix,
        "for a modpack server: resync the client's mods folder with the server's".to_owned(),
    );

    if m.ids.len() == 0 {
        push_text(
            &mut dev_tip,
            "if you are a dev, that registry content has to exist on both sides: register it with DeferredRegister on the mod event bus, which runs on the client and on the server".to_owned(),
        );
    } else {
        push_text(
            &mut dev_tip,
            cat3(
                "if you are a dev, the missing IDs are ",
                &preview(&m.ids, 6),
                ". Those come from a registry your mod fills: register with DeferredRegister on the mod event bus so both sides get them, and never add game content from a client-only event like FMLClientSetupEvent",
            ),
        );
    }
    Diagnosis { culprit, cause, evidence, fix, dev_tip, confidence }
}

pub fn check_registry(r: &Report) -> (d: Option<Diagnosis>)
    ensures
        verdict_of(d) == registry_verdict(r@),
{
    let marker = if r.contains("Missing registry entries") {
        "Missing registry entries"
    } else if r.contains("Failed to synchronize registry data") {
        "Failed to synchronize registry data"
    } else {
        return None;
    };
    let missing = missing_registry_ids(&r.raw, marker);
    Some(diagnose_registry(r, marker, &missing))
}

} // verus!

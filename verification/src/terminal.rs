//! What is printed of a report and its diagnosis.
use vstd::prelude::*;
use crate::model::{
    confidence_face, confidence_label, count_mods, exc_text, excs_of, loader_label, mod_label,
    mods_of, sections_of, Confidence, Diagnosis, DiagnosisView, Exc, ExcView, Loader, ModInfo,
    ModView, Report, ReportView, Section, SectionView,
};
use crate::number::{decimal, decimal_text};
use crate::rules::{checks_of, Evaluation, EvaluationView};
use crate::rules::common::{new_lines, no_lines};
use crate::text::{cat2, cat3, cat4, join, joined, push_text, text_or, texts};
use crate::ui::answer::byte_count;

verus! {

/// The text that is printed.
pub struct Out {
    pub text: String,
}

impl View for Out {
    type V = Seq<char>;

    open spec fn view(&self) -> Seq<char> {
        self.text@
    }
}

/// `out` with a line behind it.
pub open spec fn lined(out: Seq<char>, line: Seq<char>) -> Seq<char> {
    (out + line).push('\n')
}

/// `out` with a line behind it that gives a value a label.
pub open spec fn fielded(out: Seq<char>, label: Seq<char>, value: Seq<char>) -> Seq<char> {
    (out + label + ": "@ + value).push('\n')
}

/// `out` with lines behind it, the first of which has a label.
pub open spec fn blocked(out: Seq<char>, label: Seq<char>, lines: Seq<Seq<char>>) -> Seq<char>
    decreases lines.len(),
{
    if lines.len() == 0 {
        out
    } else if lines.len() == 1 {
        fielded(out, label, lines[0])
    } else {
        lined(blocked(out, label, lines.drop_last()), lines.last())
    }
}

impl Out {
    pub fn new() -> (r: Out)
        ensures
            r@ == Seq::<char>::empty(),
    {
        Out { text: String::new() }
    }

    pub fn line(&mut self, text: &str)
        ensures
            final(self)@ == lined(old(self)@, text@),
    {
        self.text.append(text);
        self.text.push('\n');
    }

    pub fn blank(&mut self)
        ensures
            final(self)@ == old(self)@.push('\n'),
    {
        self.text.push('\n');
    }

    pub fn field(&mut self, label: &str, value: &str)
        ensures
            final(self)@ == fielded(old(self)@, label@, value@),
    {
        self.text.append(label);
        self.text.append(": ");
        self.text.append(value);
        self.text.push('\n');
    }

    pub fn block(&mut self, label: &str, lines: &Vec<String>)
        ensures
            final(self)@ == blocked(old(self)@, label@, texts(lines@)),
    {
        let ghost start = self@;
        let ghost all = texts(lines@);
        let mut i: usize = 0;
        while i < lines.len()
            invariant
                i <= lines.len(),
                all == texts(lines@),
                self@ == blocked(start, label@, all.take(i as int)),
            decreases lines.len() - i,
        {
            assert(all.take(i + 1).drop_last() =~= all.take(i as int));
            assert(all.take(i + 1).last() == lines@[i as int]@);
            if i == 0 {
                self.field(label, &lines[i]);
            } else {
                self.line(&lines[i]);
            }
            i = i + 1;
        }
        assert(all.take(i as int) =~= all);
    }
}

/// The loader and its version, as far as they are known.
pub open spec fn loader_text(r: ReportView) -> Seq<char> {
    if r.loader == Loader::Unknown {
        "unknown loader"@
    } else {
        match r.loader_version {
            Some(v) => loader_label(r.loader) + " "@ + v,
            None => loader_label(r.loader),
        }
    }
}

pub fn loader_line(r: &Report) -> (s: String)
    ensures
        s@ == loader_text(r@),
{
    if r.loader == Loader::Unknown {
        return "unknown loader".to_owned();
    }
    match &r.loader_version {
        Some(v) => cat3(r.loader.label(), " ", v),
        None => r.loader.label().to_owned(),
    }
}

/// What the report comes from, in parts.
pub open spec fn header_bits(r: ReportView) -> Seq<Seq<char>> {
    let bits = no_lines().push(loader_text(r));
    let bits = match r.mc_version {
        Some(mc) => bits.push("Minecraft "@ + mc),
        None => bits,
    };
    let bits = if count_mods(r.mods) > 0 {
        bits.push(decimal(count_mods(r.mods)) + " mods"@)
    } else {
        bits
    };
    match r.java_version {
        Some(java) => bits.push("Java "@ + java),
        None => bits,
    }
}

/// `out` with the header behind it.
pub open spec fn with_header(out: Seq<char>, r: ReportView) -> Seq<char> {
    let out = lined(out, "crashdoctor · "@ + r.source);
    let out = lined(out, joined(header_bits(r), " · "@));
    if r.loader == Loader::Fabric || r.loader == Loader::NeoForge {
        lined(
            out,
            "note: this report comes from "@ + loader_label(r.loader)
                + ". crashdoctor is tuned for Forge 1.20.1, so the reading may be incomplete"@,
        )
    } else {
        out
    }
}

pub fn print_header(out: &mut Out, r: &Report)
    ensures
        final(out)@ == with_header(old(out)@, r@),
{
    out.line(&cat2("crashdoctor · ", &r.source));
    let mut bits = new_lines();
    push_text(&mut bits, loader_line(r));
    if let Some(mc) = &r.mc_version {
        push_text(&mut bits, cat2("Minecraft ", mc));
    }
    let mods = r.mod_count();
    if mods > 0 {
        push_text(&mut bits, cat2(&decimal_text(mods as u64), " mods"));
    }
    if let Some(java) = &r.java_version {
        push_text(&mut bits, cat2("Java ", java));
    }
    out.line(&join(&bits, " · "));
    if r.loader == Loader::Fabric || r.loader == Loader::NeoForge {
        out.line(
            &cat3(
                "note: this report comes from ",
                r.loader.label(),
                ". crashdoctor is tuned for Forge 1.20.1, so the reading may be incomplete",
            ),
        );
    }
}

/// `out` with the diagnosis behind it.
pub open spec fn with_diagnosis(out: Seq<char>, d: DiagnosisView) -> Seq<char> {
    let out = fielded(out.push('\n'), "CULPRIT"@, text_or(d.culprit, "unknown"@));
    let out = fielded(out, "CAUSE"@, d.cause);
    let out = blocked(out, "EVIDENCE"@, d.evidence);
    let out = blocked(out, "FIX"@, d.fix);
    let out = blocked(out, "DEV TIP"@, d.dev_tip);
    fielded(
        out,
        "CONFIDENCE"@,
        confidence_label(d.confidence) + " "@ + confidence_face(d.confidence),
    )
}

pub fn print_diagnosis(out: &mut Out, d: &Diagnosis)
    ensures
        final(out)@ == with_diagnosis(old(out)@, d@),
{
    out.blank();
    match &d.culprit {
        Some(s) => out.field("CULPRIT", s),
        None => out.field("CULPRIT", "unknown"),
    }
    out.field("CAUSE", &d.cause);
    out.block("EVIDENCE", &d.evidence);
    out.block("FIX", &d.fix);
    out.block("DEV TIP", &d.dev_tip);
    out.field("CONFIDENCE", &cat3(d.confidence.label(), " ", d.confidence.face()));
}

pub open spec fn section_names(sections: Seq<SectionView>) -> Seq<Seq<char>> {
    sections.map_values(|s: SectionView| s.name)
}

pub open spec fn exception_texts(excs: Seq<ExcView>) -> Seq<Seq<char>> {
    excs.map_values(|e: ExcView| exc_text(e))
}

pub open spec fn mod_labels(mods: Seq<ModView>) -> Seq<Seq<char>> {
    mods.map_values(|m: ModView| mod_label(m))
}

fn names_of_sections(v: &Vec<Section>) -> (r: Vec<String>)
    ensures
        texts(r@) == section_names(sections_of(v@)),
{
    let ghost all = section_names(sections_of(v@));
    let mut r = new_lines();
    let mut i: usize = 0;
    assert(texts(r@) =~= all.take(0));
    while i < v.len()
        invariant
            i <= v.len(),
            all == section_names(sections_of(v@)),
            texts(r@) == all.take(i as int),
        decreases v.len() - i,
    {
        push_text(&mut r, v[i].name.clone());
        assert(texts(r@) =~= all.take(i + 1));
        i = i + 1;
    }
    assert(all.take(i as int) =~= all);
    r
}

fn texts_of_exceptions(v: &Vec<Exc>) -> (r: Vec<String>)
    ensures
        texts(r@) == exception_texts(excs_of(v@)),
{
    let ghost all = exception_texts(excs_of(v@));
    let mut r = new_lines();
    let mut i: usize = 0;
    assert(texts(r@) =~= all.take(0));
    while i < v.len()
        invariant
            i <= v.len(),
            all == exception_texts(excs_of(v@)),
            texts(r@) == all.take(i as int),
        decreases v.len() - i,
    {
        push_text(&mut r, v[i].text());
        assert(texts(r@) =~= all.take(i + 1));
        i = i + 1;
    }
    assert(all.take(i as int) =~= all);
    r
}

fn labels_of_mods(v: &Vec<ModInfo>) -> (r: Vec<String>)
    ensures
        texts(r@) == mod_labels(mods_of(v@)),
{
    let ghost all = mod_labels(mods_of(v@));
    let mut r = new_lines();
    let mut i: usize = 0;
    assert(texts(r@) =~= all.take(0));
    while i < v.len()
        invariant
            i <= v.len(),
            all == mod_labels(mods_of(v@)),
            texts(r@) == all.take(i as int),
        decreases v.len() - i,
    {
        push_text(&mut r, v[i].label());
        assert(texts(r@) =~= all.take(i + 1));
        i = i + 1;
    }
    assert(all.take(i as int) =~= all);
    r
}

/// A list with `sep` between its elements, or that there are none.
pub open spec fn list_text(list: Seq<Seq<char>>, sep: Seq<char>) -> Seq<char> {
    if list.len() == 0 {
        "none"@
    } else {
        joined(list, sep)
    }
}

fn list_line(list: &Vec<String>, sep: &str) -> (r: String)
    ensures
        r@ == list_text(texts(list@), sep@),
{
    if list.len() == 0 {
        "none".to_owned()
    } else {
        join(list, sep)
    }
}

pub open spec fn amount_text(n: Option<u32>, unit: Seq<char>) -> Seq<char> {
    match n {
        Some(n) => decimal(n as nat) + unit,
        None => "-"@,
    }
}

fn amount(n: Option<u32>, unit: &str) -> (r: String)
    ensures
        r@ == amount_text(n, unit@),
{
    match n {
        Some(n) => cat2(&decimal_text(n as u64), unit),
        None => "-".to_owned(),
    }
}

pub open spec fn check_line(name: Seq<char>, hit: bool) -> Seq<char> {
    "rule "@ + name + ": "@ + if hit {
        "matched"@
    } else {
        "no"@
    }
}

/// `out` with a line for each rule behind it.
pub open spec fn with_checks(out: Seq<char>, checks: Seq<(Seq<char>, bool)>) -> Seq<char>
    decreases checks.len(),
{
    if checks.len() == 0 {
        out
    } else {
        lined(
            with_checks(out, checks.drop_last()),
            check_line(checks.last().0, checks.last().1),
        )
    }
}

fn print_checks(out: &mut Out, checks: &Vec<(&'static str, bool)>)
    ensures
        final(out)@ == with_checks(old(out)@, checks_of(checks@)),
{
    let ghost start = out@;
    let ghost all = checks_of(checks@);
    let mut i: usize = 0;
    while i < checks.len()
        invariant
            i <= checks.len(),
            all == checks_of(checks@),
            out@ == with_checks(start, all.take(i as int)),
        decreases checks.len() - i,
    {
        let (name, hit) = checks[i];
        assert(all.take(i + 1).drop_last() =~= all.take(i as int));
        assert(all.take(i + 1).last() == (name@, hit));
        let verdict = if hit {
            "matched"
        } else {
            "no"
        };
        out.line(&cat4("rule ", name, ": ", verdict));
        i = i + 1;
    }
    assert(all.take(i as int) =~= all);
}

/// `out` with a line for each warning behind it.
pub open spec fn with_warnings(out: Seq<char>, warnings: Seq<Seq<char>>) -> Seq<char>
    decreases warnings.len(),
{
    if warnings.len() == 0 {
        out
    } else {
        lined(with_warnings(out, warnings.drop_last()), "warning: "@ + warnings.last())
    }
}

fn print_warnings(out: &mut Out, warnings: &Vec<String>)
    ensures
        final(out)@ == with_warnings(old(out)@, texts(warnings@)),
{
    let ghost start = out@;
    let ghost all = texts(warnings@);
    let mut i: usize = 0;
    while i < warnings.len()
        invariant
            i <= warnings.len(),
            all == texts(warnings@),
            out@ == with_warnings(start, all.take(i as int)),
        decreases warnings.len() - i,
    {
        assert(all.take(i + 1).drop_last() =~= all.take(i as int));
        assert(all.take(i + 1).last() == warnings@[i as int]@);
        out.line(&cat2("warning: ", &warnings[i]));
        i = i + 1;
    }
    assert(all.take(i as int) =~= all);
}

/// `out` with what was read and which rules matched behind it.
pub open spec fn with_debug(out: Seq<char>, r: ReportView, e: EvaluationView) -> Seq<char> {
    let out = lined(out.push('\n'), "-- debug --"@);
    let out = fielded(out, "bytes read"@, decimal(byte_count(r.raw)));
    let out = fielded(out, "description"@, text_or(r.description, "-"@));
    let out = fielded(out, "sections"@, list_text(section_names(r.sections), ", "@));
    let out = fielded(out, "frames"@, decimal(r.frames.len()));
    let out = fielded(out, "exceptions"@, list_text(exception_texts(r.exceptions), " | "@));
    let out = fielded(
        out,
        "mods"@,
        decimal(r.mods.len()) + " ("@ + joined(mod_labels(r.mods), ", "@) + ")"@,
    );
    let out = fielded(out, "jvm flags"@, list_text(r.jvm_flags, " "@));
    let out = lined(
        out,
        "-Xmx: "@ + amount_text(r.xmx_mb, " MB"@) + " · heap max: "@ + amount_text(
            r.heap_max_mb,
            " MiB"@,
        ),
    );
    let out = with_warnings(with_checks(out, e.checks), r.warnings);
    if e.diagnosis.confidence == Confidence::Low {
        lined(out, "note: nothing matched with high confidence"@)
    } else {
        out
    }
}

pub fn print_debug(out: &mut Out, r: &Report, ev: &Evaluation)
    ensures
        final(out)@ == with_debug(old(out)@, r@, ev@),
{
    out.blank();
    out.line("-- debug --");
    out.field("bytes read", &decimal_text(r.raw.as_str().len() as u64));
    match &r.description {
        Some(s) => out.field("description", s),
        None => out.field("description", "-"),
    }
    out.field("sections", &list_line(&names_of_sections(&r.sections), ", "));
    out.field("frames", &decimal_text(r.frames.len() as u64));
    out.field("exceptions", &list_line(&texts_of_exceptions(&r.exceptions), " | "));
    out.field(
        "mods",
        &cat4(
            &decimal_text(r.mods.len() as u64),
            " (",
            &join(&labels_of_mods(&r.mods), ", "),
            ")",
        ),
    );
    out.field("jvm flags", &list_line(&r.jvm_flags, " "));
    out.line(
        &cat4("-Xmx: ", &amount(r.xmx_mb, " MB"), " · heap max: ", &amount(r.heap_max_mb, " MiB")),
    );
    print_checks(out, &ev.checks);
    print_warnings(out, &r.warnings);
    if ev.diagnosis.confidence == Confidence::Low {
        out.line("note: nothing matched with high confidence");
    }
}

/// All that is printed for a report.
pub open spec fn printed(r: ReportView, e: EvaluationView, debug: bool) -> Seq<char> {
    let out = with_diagnosis(with_header(Seq::empty(), r), e.diagnosis);
    if debug {
        with_debug(out, r, e)
    } else {
        out
    }
}

/// Prints a report and what was made of it.
pub fn print_report(r: &Report, ev: &Evaluation, debug: bool) -> (s: String)
    ensures
        s@ == printed(r@, ev@, debug),
{
    let mut out = Out::new();
    print_header(&mut out, r);
    print_diagnosis(&mut out, &ev.diagnosis);
    if debug {
        print_debug(&mut out, r, ev);
    }
    out.text
}

} // verus!

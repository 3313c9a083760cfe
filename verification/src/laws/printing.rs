//! What holds of the text that is printed.
use vstd::prelude::*;
use crate::model::{DiagnosisView, ReportView};
use crate::number::decimal;
use crate::rules::EvaluationView;
use crate::terminal::{
    amount_text, blocked, exception_texts, fielded, lined, list_text, mod_labels, printed,
    section_names, with_checks, with_debug, with_diagnosis, with_header, with_warnings,
};
use crate::text::{joined, text_or};
use crate::ui::answer::byte_count;

verus! {

proof fn lemma_prefix(a: Seq<char>, b: Seq<char>, c: Seq<char>)
    requires
        a.is_prefix_of(b),
        b.is_prefix_of(c),
    ensures
        a.is_prefix_of(c),
{
    assert(c.take(a.len() as int) =~= b.take(a.len() as int));
    assert(a =~= c.subrange(0, a.len() as int));
}

proof fn lemma_lined(out: Seq<char>, line: Seq<char>)
    ensures
        out.is_prefix_of(lined(out, line)),
{
    assert(out =~= lined(out, line).subrange(0, out.len() as int));
}

proof fn lemma_fielded(out: Seq<char>, label: Seq<char>, value: Seq<char>)
    ensures
        out.is_prefix_of(fielded(out, label, value)),
{
    assert(out =~= fielded(out, label, value).subrange(0, out.len() as int));
}

proof fn lemma_blocked(out: Seq<char>, label: Seq<char>, lines: Seq<Seq<char>>)
    ensures
        out.is_prefix_of(blocked(out, label, lines)),
    decreases lines.len(),
{
    if lines.len() == 0 {
        assert(out =~= out.subrange(0, out.len() as int));
    } else if lines.len() == 1 {
        lemma_fielded(out, label, lines[0]);
    } else {
        let before = blocked(out, label, lines.drop_last());
        lemma_blocked(out, label, lines.drop_last());
        lemma_lined(before, lines.last());
        lemma_prefix(out, before, blocked(out, label, lines));
    }
}

proof fn lemma_checks(out: Seq<char>, checks: Seq<(Seq<char>, bool)>)
    ensures
        out.is_prefix_of(with_checks(out, checks)),
    decreases checks.len(),
{
    if checks.len() == 0 {
        assert(out =~= out.subrange(0, out.len() as int));
    } else {
        let before = with_checks(out, checks.drop_last());
        lemma_checks(out, checks.drop_last());
        assert(before =~= with_checks(out, checks).subrange(0, before.len() as int));
        lemma_prefix(out, before, with_checks(out, checks));
    }
}

proof fn lemma_warnings(out: Seq<char>, warnings: Seq<Seq<char>>)
    ensures
        out.is_prefix_of(with_warnings(out, warnings)),
    decreases warnings.len(),
{
    if warnings.len() == 0 {
        assert(out =~= out.subrange(0, out.len() as int));
    } else {
        let before = with_warnings(out, warnings.drop_last());
        lemma_warnings(out, warnings.drop_last());
        assert(before =~= with_warnings(out, warnings).subrange(0, before.len() as int));
        lemma_prefix(out, before, with_warnings(out, warnings));
    }
}

proof fn lemma_diagnosis(out: Seq<char>, d: DiagnosisView)
    ensures
        fielded(out.push('\n'), "CULPRIT"@, text_or(d.culprit, "unknown"@)).is_prefix_of(
            with_diagnosis(out, d),
        ),
{
    let a = fielded(out.push('\n'), "CULPRIT"@, text_or(d.culprit, "unknown"@));
    let b = fielded(a, "CAUSE"@, d.cause);
    let c = blocked(b, "EVIDENCE"@, d.evidence);
    let e = blocked(c, "FIX"@, d.fix);
    let f = blocked(e, "DEV TIP"@, d.dev_tip);
    let g = with_diagnosis(out, d);
    lemma_fielded(a, "CAUSE"@, d.cause);
    lemma_blocked(b, "EVIDENCE"@, d.evidence);
    lemma_blocked(c, "FIX"@, d.fix);
    lemma_blocked(e, "DEV TIP"@, d.dev_tip);
    assert(f =~= g.subrange(0, f.len() as int));
    lemma_prefix(a, b, c);
    lemma_prefix(a, c, e);
    lemma_prefix(a, e, f);
    lemma_prefix(a, f, g);
}

/// What is printed starts with the header, and then names the culprit, or that it is unknown.
pub proof fn law_culprit_is_printed_first(r: ReportView, e: EvaluationView, debug: bool)
    ensures
        fielded(
            with_header(Seq::empty(), r).push('\n'),
            "CULPRIT"@,
            text_or(e.diagnosis.culprit, "unknown"@),
        ).is_prefix_of(printed(r, e, debug)),
{
    let header = with_header(Seq::empty(), r);
    let named = fielded(
        header.push('\n'),
        "CULPRIT"@,
        text_or(e.diagnosis.culprit, "unknown"@),
    );
    lemma_diagnosis(header, e.diagnosis);
    law_debug_only_adds(r, e);
    if debug {
        lemma_prefix(named, printed(r, e, false), printed(r, e, true));
    }
}

/// Asking for more only adds to what is printed.
pub proof fn law_debug_only_adds(r: ReportView, e: EvaluationView)
    ensures
        printed(r, e, false).is_prefix_of(printed(r, e, true)),
{
    lemma_debug(printed(r, e, false), r, e);
}

proof fn lemma_debug(out: Seq<char>, r: ReportView, e: EvaluationView)
    ensures
        out.is_prefix_of(with_debug(out, r, e)),
{
    let a = lined(out.push('\n'), "-- debug --"@);
    assert(out =~= a.subrange(0, out.len() as int));
    let b = fielded(a, "bytes read"@, decimal(byte_count(r.raw)));
    let c = fielded(b, "description"@, text_or(r.description, "-"@));
    let d = fielded(c, "sections"@, list_text(section_names(r.sections), ", "@));
    let f = fielded(d, "frames"@, decimal(r.frames.len()));
    let g = fielded(f, "exceptions"@, list_text(exception_texts(r.exceptions), " | "@));
    let labels = decimal(r.mods.len()) + " ("@ + joined(mod_labels(r.mods), ", "@) + ")"@;
    let h = fielded(g, "mods"@, labels);
    let i = fielded(h, "jvm flags"@, list_text(r.jvm_flags, " "@));
    let memory = "-Xmx: "@ + amount_text(r.xmx_mb, " MB"@) + " · heap max: "@ + amount_text(
        r.heap_max_mb,
        " MiB"@,
    );
    let j = lined(i, memory);
    let k = with_checks(j, e.checks);
    let l = with_warnings(k, r.warnings);
    lemma_fielded(a, "bytes read"@, decimal(byte_count(r.raw)));
    lemma_fielded(b, "description"@, text_or(r.description, "-"@));
    lemma_fielded(c, "sections"@, list_text(section_names(r.sections), ", "@));
    lemma_fielded(d, "frames"@, decimal(r.frames.len()));
    lemma_fielded(f, "exceptions"@, list_text(exception_texts(r.exceptions), " | "@));
    lemma_fielded(g, "mods"@, labels);
    lemma_fielded(h, "jvm flags"@, list_text(r.jvm_flags, " "@));
    lemma_lined(i, memory);
    lemma_checks(j, e.checks);
    lemma_warnings(k, r.warnings);
    lemma_lined(l, "note: nothing matched with high confidence"@);
    lemma_prefix(out, a, b);
    lemma_prefix(out, b, c);
    lemma_prefix(out, c, d);
    lemma_prefix(out, d, f);
    lemma_prefix(out, f, g);
    lemma_prefix(out, g, h);
    lemma_prefix(out, h, i);
    lemma_prefix(out, i, j);
    lemma_prefix(out, j, k);
    lemma_prefix(out, k, l);
    lemma_prefix(out, l, lined(l, "note: nothing matched with high confidence"@));
}

} // verus!

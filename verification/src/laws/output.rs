//! What holds of what is listed, printed and sent.
use vstd::prelude::*;
use crate::laws::wording::law_ends_are_taken_off;
use crate::model::{
    confidence_label, count_mods, loader_label, Confidence, DiagnosisView, Loader, ReportView,
};
use crate::number::decimal;
use crate::rules::EvaluationView;
use crate::terminal::{
    amount_text, blocked, header_bits, lined, list_text, loader_text, printed, with_checks,
    with_header, with_warnings,
};
use crate::text::{joined, lines_of, text_or, trimmed};
use crate::ui::json::{diagnosis_object, error_object, json_elements, json_text};
use crate::ui::listing::{
    age_of, age_text, described, found_at, found_object, listed, listing_array, nanos_of,
    newest_first, report_name, size_text, wanted, EntryView, FoundView, Stamp,
};

verus! {

/// Which files are reports: text files, and in a folder that was not asked for only those of the
/// game.
pub proof fn law_names_of_reports(stem: Seq<char>, name: Seq<char>)
    ensures
        report_name(stem + ".txt"@, true),
        report_name("crash-"@ + stem + ".txt"@, false),
        report_name(name, false) ==> report_name(name, true),
        report_name(name, true) ==> ".txt"@.is_suffix_of(name),
        report_name(name, false) ==> "crash-"@.is_prefix_of(name),
        !wanted(name, true, None) && !wanted(name, true, Some(false)),
        wanted(name, true, Some(true)) == report_name(name, true),
        wanted(name, false, Some(true)) == report_name(name, false),
{
    let a = stem + ".txt"@;
    assert(".txt"@ =~= a.subrange(a.len() - ".txt"@.len(), a.len() as int));
    let b = "crash-"@ + stem + ".txt"@;
    assert(".txt"@ =~= b.subrange(b.len() - ".txt"@.len(), b.len() as int));
    assert("crash-"@ =~= b.subrange(0, "crash-"@.len() as int));
}

/// A report is described by its first line that gives a description, without white space around it
/// and cut off behind ninety characters; without such a line it is not described.
pub proof fn law_description_of_a_report(lines: Seq<Seq<char>>, i: int, text: Seq<char>)
    requires
        0 <= i < lines.len(),
        forall|k: int| 0 <= k < i ==> !"Description:"@.is_prefix_of(#[trigger] lines[k]),
    ensures
        lines[i] == "Description:"@ + text ==> described(lines) == (if trimmed(text).len() > 90 {
            trimmed(text).take(90)
        } else {
            trimmed(text)
        }),
        !"Description:"@.is_prefix_of(lines[i]) && i == lines.len() - 1 ==> described(lines).len()
            == 0,
    decreases lines.len(),
{
    let rest = lines.skip(1);
    law_ends_are_taken_off("Description:"@, text);
    if i > 0 {
        assert(!"Description:"@.is_prefix_of(lines[0]));
        assert(rest[i - 1] == lines[i]);
        assert forall|k: int| 0 <= k < i - 1 implies !"Description:"@.is_prefix_of(
            #[trigger] rest[k],
        ) by {
            assert(rest[k] == lines[k + 1]);
        }
        law_description_of_a_report(rest, i - 1, text);
    } else if lines.len() == 1 {
        assert(rest.len() == 0);
        assert(described(rest).len() == 0);
    }
}

/// Ages are told in minutes below an hour, in hours below a day, and in days from two days on.
pub proof fn law_ages_in_words(secs: nat)
    ensures
        secs < 60 ==> age_text(secs) == "just now"@,
        60 <= secs < 3600 ==> exists|n: nat|
            n * 60 <= secs < (n + 1) * 60 && age_text(secs) == #[trigger] decimal(n) + " min ago"@,
        3600 <= secs < 86400 ==> exists|n: nat|
            n * 3600 <= secs < (n + 1) * 3600 && age_text(secs) == #[trigger] decimal(n)
                + " h ago"@,
        86400 <= secs < 172800 ==> age_text(secs) == "yesterday"@,
        172800 <= secs ==> exists|n: nat|
            n * 86400 <= secs < (n + 1) * 86400 && age_text(secs) == #[trigger] decimal(n)
                + " days ago"@,
{
    if 60 <= secs < 3600 {
        let n = secs / 60;
        assert(n * 60 <= secs < (n + 1) * 60 && age_text(secs) == decimal(n) + " min ago"@);
    } else if 3600 <= secs < 86400 {
        let n = secs / 3600;
        assert(n * 3600 <= secs < (n + 1) * 3600 && age_text(secs) == decimal(n) + " h ago"@);
    } else if 172800 <= secs {
        let n = secs / 86400;
        assert(n * 86400 <= secs < (n + 1) * 86400 && age_text(secs) == decimal(n) + " days ago"@);
    }
}

/// An age is in whole seconds.
pub proof fn law_age_in_seconds(now: Stamp, then: Stamp)
    requires
        nanos_of(then) <= nanos_of(now),
    ensures
        age_of(now, then) * 1_000_000_000 <= nanos_of(now) - nanos_of(then) < (age_of(now, then)
            + 1) * 1_000_000_000,
{
}

/// Sizes are told in kilobytes, one at least, and in megabytes from one on.
pub proof fn law_sizes_in_words(bytes: nat, megabytes: Seq<char>)
    ensures
        bytes < 1024 ==> size_text(bytes, megabytes) == "1 KB"@,
        1024 <= bytes < 1048576 ==> exists|n: nat|
            n * 1024 <= bytes < (n + 1) * 1024 && size_text(bytes, megabytes)
                == #[trigger] decimal(n) + " KB"@,
        1048576 <= bytes ==> size_text(bytes, megabytes) == megabytes + " MB"@,
{
    if 1024 <= bytes < 1048576 {
        let n = bytes / 1024;
        assert(n * 1024 <= bytes < (n + 1) * 1024 && size_text(bytes, megabytes) == decimal(n)
            + " KB"@);
    }
}

/// What is listed of a file: its path and name, its time or the beginning of time, its description
/// and its size.
pub proof fn law_what_is_listed_of_a_file(e: EntryView, explicit: bool)
    ensures
        found_at(e, explicit) is Some <==> e.meta is Some && e.meta->0.is_file && report_name(
            e.name,
            explicit,
        ),
        found_at(e, explicit) matches Some(f) ==> {
            &&& f.path == e.path
            &&& f.name == e.name
            &&& e.meta->0.modified matches Some(t) ==> f.modified == t
            &&& e.meta->0.modified is None ==> nanos_of(f.modified) == 0
            &&& e.text is None ==> f.description.len() == 0
            &&& e.text matches Some(text) ==> f.description == described(lines_of(text))
            &&& f.size == size_text(e.meta->0.size, e.meta->0.megabytes)
        },
{
}

/// At most twenty-five files are listed, the newest of those that were found.
pub proof fn law_length_of_the_list(found: Seq<FoundView>)
    ensures
        listed(found).len() == (if newest_first(found).len() > 25 {
            25
        } else {
            newest_first(found).len()
        }),
        listed(found).is_prefix_of(newest_first(found)),
{
    let all = newest_first(found);
    let n = listed(found).len() as int;
    assert(listed(found) =~= all.subrange(0, n));
}

/// An object in a list starts with its path, gives the name, the size and the age after that, and
/// ends with the description.
pub proof fn law_object_of_a_file(f: FoundView, now: Stamp)
    ensures
        ("{\"path\":"@ + json_text(f.path) + ",\"name\":"@ + json_text(f.name)
            + ",\"size\":\""@ + f.size + "\",\"age\":"@ + json_text(
            age_text(age_of(now, f.modified)),
        )).is_prefix_of(found_object(f, now)),
        (",\"description\":"@ + json_text(f.description) + "}"@).is_suffix_of(found_object(f, now)),
        listing_array(Seq::empty(), now) == "["@ + "]"@,
{
    let all = found_object(f, now);
    let a = "{\"path\":"@ + json_text(f.path) + ",\"name\":"@ + json_text(f.name)
        + ",\"size\":\""@ + f.size + "\",\"age\":"@ + json_text(age_text(age_of(now, f.modified)));
    let b = ",\"description\":"@ + json_text(f.description) + "}"@;
    assert(all =~= a + b);
    assert(a =~= all.subrange(0, a.len() as int));
    assert(b =~= all.subrange(all.len() - b.len(), all.len() as int));
    let none = Seq::<FoundView>::empty();
    assert(newest_first(none) =~= none);
    assert(listed(none) =~= none);
    assert(listed(none).map_values(|f: FoundView| found_object(f, now)) =~= Seq::<
        Seq<char>,
    >::empty());
    assert("["@ + Seq::<char>::empty() + "]"@ =~= "["@ + "]"@);
}

/// The elements of an array are the lines, each as a text, with commas between them.
pub proof fn law_elements_of_an_array(lines: Seq<Seq<char>>, line: Seq<char>)
    ensures
        json_elements(Seq::<Seq<char>>::empty()).len() == 0,
        json_elements(seq![line]) == json_text(line),
        lines.len() > 0 ==> json_elements(lines.push(line)) == json_elements(lines) + ","@
            + json_text(line),
{
    let f = |s: Seq<char>| json_text(s);
    assert(seq![line].map_values(f) =~= seq![json_text(line)]);
    let longer = lines.push(line).map_values(f);
    assert(longer =~= lines.map_values(f).push(json_text(line)));
    assert(longer.drop_last() =~= lines.map_values(f));
}

/// The object of a diagnosis: the source, the culprit or that it is unknown, and the cause in front,
/// and the exit status behind. That of an error says that it is empty.
pub proof fn law_object_of_a_diagnosis(d: DiagnosisView, source: Seq<char>, exit: nat, why: Seq<char>)
    ensures
        ("{\"source\":"@ + json_text(source) + ",\"culprit\":"@ + json_text(
            text_or(d.culprit, "unknown"@),
        ) + ",\"cause\":"@ + json_text(d.cause) + ",\"evidence\":["@ + json_elements(d.evidence)
            + "],\"fix\":["@ + json_elements(d.fix) + "],\"dev_tip\":["@ + json_elements(
            d.dev_tip,
        )).is_prefix_of(diagnosis_object(d, source, exit)),
        (",\"exit\":"@ + decimal(exit) + ",\"empty\":false}"@).is_suffix_of(
            diagnosis_object(d, source, exit),
        ),
        ("{\"empty\":true,\"error\":"@ + json_text(why)).is_prefix_of(error_object(why)),
        crate::text::has(
            diagnosis_object(d, source, exit),
            ",\"face\":"@ + json_text(crate::model::confidence_face(d.confidence)),
        ),
        crate::text::has(
            diagnosis_object(d, source, exit),
            "],\"confidence\":"@ + json_text(confidence_label(d.confidence)),
        ),
{
    let all = diagnosis_object(d, source, exit);
    let a = "{\"source\":"@ + json_text(source) + ",\"culprit\":"@ + json_text(
        text_or(d.culprit, "unknown"@),
    ) + ",\"cause\":"@ + json_text(d.cause) + ",\"evidence\":["@ + json_elements(d.evidence)
        + "],\"fix\":["@ + json_elements(d.fix) + "],\"dev_tip\":["@ + json_elements(d.dev_tip);
    let c = "],\"confidence\":"@ + json_text(confidence_label(d.confidence));
    let f = ",\"face\":"@ + json_text(crate::model::confidence_face(d.confidence));
    let b = ",\"exit\":"@ + decimal(exit) + ",\"empty\":false}"@;
    assert(all =~= a + c + (f + b));
    assert(all =~= (a + c) + f + b);
    crate::laws::wording::law_has(a, c, f + b, all);
    crate::laws::wording::law_has(a + c, f, b, all);
    assert(a =~= all.subrange(0, a.len() as int));
    assert(b =~= all.subrange(all.len() - b.len(), all.len() as int));
    let e = error_object(why);
    let start = "{\"empty\":true,\"error\":"@ + json_text(why);
    assert(start =~= e.subrange(0, start.len() as int));
}

/// How confident a diagnosis is, in words.
pub proof fn law_confidence_in_words(c: Confidence)
    ensures
        c == Confidence::High <==> confidence_label(c) == "high"@,
        c == Confidence::Medium <==> confidence_label(c) == "medium"@,
        c == Confidence::Low <==> confidence_label(c) == "low"@,
{
    reveal_strlit("high");
    reveal_strlit("medium");
    reveal_strlit("low");
    assert("high"@.len() == 4);
    assert("medium"@.len() == 6);
    assert("low"@.len() == 3);
}

/// Lines with a label in front of the first.
pub open spec fn labelled(label: Seq<char>, lines: Seq<Seq<char>>) -> Seq<char> {
    if lines.len() == 0 {
        Seq::empty()
    } else {
        label + ": "@ + crate::laws::parsing::stacked(lines)
    }
}

proof fn lemma_labelled(out: Seq<char>, label: Seq<char>, lines: Seq<Seq<char>>)
    ensures
        blocked(out, label, lines) == out + labelled(label, lines),
    decreases lines.len(),
{
    let less = lines.drop_last();
    if lines.len() == 0 {
        assert(blocked(out, label, lines) =~= out + labelled(label, lines));
    } else if lines.len() == 1 {
        assert(crate::laws::parsing::stacked(less) =~= Seq::<char>::empty());
        assert(crate::laws::parsing::stacked(lines) =~= lines[0] + seq!['\n']);
        assert(blocked(out, label, lines) =~= out + labelled(label, lines));
    } else {
        lemma_labelled(out, label, less);
        assert(blocked(out, label, lines) =~= out + labelled(label, lines));
    }
}

/// What is printed of a diagnosis: behind a blank line the culprit, the cause, then the lines of the
/// evidence, of the fix and of the tip, each with its label in front, and how confident it is.
pub proof fn law_diagnosis_is_printed(r: ReportView, e: EvaluationView)
    ensures
        ({
            let d = e.diagnosis;
            printed(r, e, false) == with_header(Seq::empty(), r) + "\n"@ + labelled(
                "CULPRIT"@,
                seq![text_or(d.culprit, "unknown"@)],
            ) + labelled("CAUSE"@, seq![d.cause]) + labelled("EVIDENCE"@, d.evidence) + labelled(
                "FIX"@,
                d.fix,
            ) + labelled("DEV TIP"@, d.dev_tip) + labelled(
                "CONFIDENCE"@,
                seq![
                    confidence_label(d.confidence) + " "@ + crate::model::confidence_face(
                        d.confidence,
                    ),
                ],
            )
        }),
{
    let d = e.diagnosis;
    reveal_strlit("\n");
    assert("\n"@ =~= seq!['\n']);
    let out = with_header(Seq::empty(), r);
    assert(out.push('\n') =~= out + "\n"@);
    let o0 = out + "\n"@;
    let culprit = text_or(d.culprit, "unknown"@);
    let sure = confidence_label(d.confidence) + " "@ + crate::model::confidence_face(d.confidence);
    lemma_labelled(o0, "CULPRIT"@, seq![culprit]);
    let o1 = o0 + labelled("CULPRIT"@, seq![culprit]);
    lemma_labelled(o1, "CAUSE"@, seq![d.cause]);
    let o2 = o1 + labelled("CAUSE"@, seq![d.cause]);
    lemma_labelled(o2, "EVIDENCE"@, d.evidence);
    let o3 = o2 + labelled("EVIDENCE"@, d.evidence);
    lemma_labelled(o3, "FIX"@, d.fix);
    let o4 = o3 + labelled("FIX"@, d.fix);
    lemma_labelled(o4, "DEV TIP"@, d.dev_tip);
    let o5 = o4 + labelled("DEV TIP"@, d.dev_tip);
    lemma_labelled(o5, "CONFIDENCE"@, seq![sure]);
}

/// The header names the source, and under it the loader, the game, the number of mods and Java, as
/// far as they are known. Reports of other loaders than Forge get a note.
pub proof fn law_header_is_printed(r: ReportView)
    ensures
        ({
            let bits = joined(header_bits(r), " · "@);
            let top = "crashdoctor · "@ + r.source + "\n"@ + bits + "\n"@;
            &&& r.loader == Loader::Forge || r.loader == Loader::Unknown ==> with_header(
                Seq::empty(),
                r,
            ) == top
            &&& r.loader == Loader::Fabric || r.loader == Loader::NeoForge ==> (top
                + "note: this report comes from "@ + loader_label(r.loader)).is_prefix_of(
                with_header(Seq::empty(), r),
            )
        }),
        header_bits(r)[0] == loader_text(r),
        header_bits(r).len() == 1 + (if r.mc_version is Some {
            1int
        } else {
            0
        }) + (if count_mods(r.mods) > 0 {
            1int
        } else {
            0
        }) + (if r.java_version is Some {
            1int
        } else {
            0
        }),
        r.mc_version matches Some(mc) ==> header_bits(r)[1] == "Minecraft "@ + mc,
        r.java_version matches Some(java) ==> header_bits(r).last() == "Java "@ + java,
        r.java_version is None && count_mods(r.mods) > 0 ==> header_bits(r).last() == decimal(
            count_mods(r.mods),
        ) + " mods"@,
        r.loader == Loader::Unknown ==> loader_text(r) == "unknown loader"@,
        r.loader != Loader::Unknown ==> (r.loader_version matches Some(v) ==> loader_text(r)
            == loader_label(r.loader) + " "@ + v),
        r.loader != Loader::Unknown && r.loader_version is None ==> loader_text(r) == loader_label(
            r.loader,
        ),
{
    reveal_strlit("\n");
    assert("\n"@ =~= seq!['\n']);
    let bits = joined(header_bits(r), " · "@);
    let top = "crashdoctor · "@ + r.source + "\n"@ + bits + "\n"@;
    let one = lined(Seq::empty(), "crashdoctor · "@ + r.source);
    let two = lined(one, bits);
    assert(two =~= top);
    if r.loader == Loader::Fabric || r.loader == Loader::NeoForge {
        let all = with_header(Seq::empty(), r);
        let a = top + "note: this report comes from "@ + loader_label(r.loader);
        assert(a =~= all.subrange(0, a.len() as int));
    }
}

/// One line for each rule that was tried, and one for each warning.
pub proof fn law_checks_and_warnings_are_printed(
    out: Seq<char>,
    checks: Seq<(Seq<char>, bool)>,
    name: Seq<char>,
    warnings: Seq<Seq<char>>,
    warning: Seq<char>,
)
    ensures
        with_checks(out, checks.push((name, true))) == with_checks(out, checks) + "rule "@ + name
            + ": "@ + "matched"@ + seq!['\n'],
        with_checks(out, checks.push((name, false))) == with_checks(out, checks) + "rule "@ + name
            + ": "@ + "no"@ + seq!['\n'],
        with_checks(out, Seq::empty()) == out,
        with_warnings(out, warnings.push(warning)) == with_warnings(out, warnings) + "warning: "@
            + warning + seq!['\n'],
        with_warnings(out, Seq::empty()) == out,
{
    assert(checks.push((name, true)).drop_last() =~= checks);
    assert(checks.push((name, false)).drop_last() =~= checks);
    assert(warnings.push(warning).drop_last() =~= warnings);
    let before = with_checks(out, checks);
    assert(with_checks(out, checks.push((name, true))) =~= before + "rule "@ + name + ": "@
        + "matched"@ + seq!['\n']);
    assert(with_checks(out, checks.push((name, false))) =~= before + "rule "@ + name + ": "@
        + "no"@ + seq!['\n']);
    assert(with_warnings(out, warnings.push(warning)) =~= with_warnings(out, warnings)
        + "warning: "@ + warning + seq!['\n']);
}

/// What is not known is printed as such: an amount as a dash, an empty list as none.
pub proof fn law_unknown_is_printed(n: u32, unit: Seq<char>, list: Seq<Seq<char>>, sep: Seq<char>)
    ensures
        amount_text(None, unit) == "-"@,
        amount_text(Some(n), unit) == decimal(n as nat) + unit,
        list.len() == 0 ==> list_text(list, sep) == "none"@,
        list.len() > 0 ==> list_text(list, sep) == joined(list, sep),
{
}

} // verus!

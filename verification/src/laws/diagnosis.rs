//! What holds of the diagnosis that is made.
use vstd::prelude::*;
use crate::model::{exc_is, exception_named, Confidence, DiagnosisView, ExcView, ReportView};
use crate::rules::{chosen, evaluation_of, first_high, first_hit, titles, verdicts};
use crate::rules::fallback::guess;
use crate::rules::mixin::mixin_verdict;
use crate::rules::mod_load::load_verdict;
use crate::rules::oom::{heap_next, oom_detail, oom_diagnosis, oom_verdict};
use crate::rules::registry::registry_verdict;
use crate::rules::symbol::missing_verdict;
use crate::rules::ticking::tick_verdict;
use crate::text::lowercase;
use crate::ui::answer::exit_status;

verus! {

spec fn high(v: Option<DiagnosisView>) -> bool {
    v is Some && v->0.confidence == Confidence::High
}

proof fn lemma_first_high(found: Seq<Option<DiagnosisView>>, i: int)
    requires
        0 <= i < found.len(),
        high(found[i]),
        forall|j: int| 0 <= j < i ==> !high(#[trigger] found[j]),
    ensures
        first_high(found) == found[i],
    decreases found.len(),
{
    let before = found.drop_last();
    if i < before.len() {
        assert(before[i] == found[i]);
        assert forall|j: int| 0 <= j < i implies !high(#[trigger] before[j]) by {
            assert(before[j] == found[j]);
        }
        lemma_first_high(before, i);
    } else {
        assert forall|j: int| 0 <= j < before.len() implies !high(#[trigger] before[j]) by {
            assert(before[j] == found[j]);
        }
        lemma_no_high(before);
    }
}

proof fn lemma_no_high(found: Seq<Option<DiagnosisView>>)
    requires
        forall|j: int| 0 <= j < found.len() ==> !high(#[trigger] found[j]),
    ensures
        first_high(found) is None,
    decreases found.len(),
{
    if found.len() > 0 {
        let before = found.drop_last();
        assert forall|j: int| 0 <= j < before.len() implies !high(#[trigger] before[j]) by {
            assert(before[j] == found[j]);
        }
        lemma_no_high(before);
        assert(!high(found[found.len() - 1]));
    }
}

proof fn lemma_first_hit(found: Seq<Option<DiagnosisView>>, i: int)
    requires
        0 <= i < found.len(),
        found[i] is Some,
        forall|j: int| 0 <= j < i ==> (#[trigger] found[j]) is None,
    ensures
        first_hit(found) == found[i],
    decreases found.len(),
{
    let before = found.drop_last();
    if i < before.len() {
        assert(before[i] == found[i]);
        assert forall|j: int| 0 <= j < i implies (#[trigger] before[j]) is None by {
            assert(before[j] == found[j]);
        }
        lemma_first_hit(before, i);
    } else {
        assert forall|j: int| 0 <= j < before.len() implies (#[trigger] before[j]) is None by {
            assert(before[j] == found[j]);
        }
        lemma_no_hit(before);
    }
}

proof fn lemma_no_hit(found: Seq<Option<DiagnosisView>>)
    requires
        forall|j: int| 0 <= j < found.len() ==> (#[trigger] found[j]) is None,
    ensures
        first_hit(found) is None,
    decreases found.len(),
{
    if found.len() > 0 {
        let before = found.drop_last();
        assert forall|j: int| 0 <= j < before.len() implies (#[trigger] before[j]) is None by {
            assert(before[j] == found[j]);
        }
        lemma_no_hit(before);
        assert(found[found.len() - 1] is None);
    }
}

/// The diagnosis is that of the first rule that is highly confident.
pub proof fn law_first_high_verdict_counts(r: ReportView, i: int)
    requires
        0 <= i < verdicts(r).len(),
        verdicts(r)[i] is Some,
        verdicts(r)[i]->0.confidence == Confidence::High,
        forall|j: int|
            0 <= j < i && (#[trigger] verdicts(r)[j]) is Some ==> verdicts(r)[j]->0.confidence
                != Confidence::High,
    ensures
        Some(evaluation_of(r).diagnosis) == verdicts(r)[i],
{
    assert forall|j: int| 0 <= j < i implies !high(#[trigger] verdicts(r)[j]) by {}
    lemma_first_high(verdicts(r), i);
}

/// Where no rule is highly confident, the diagnosis is that of the first rule that has one.
pub proof fn law_else_first_verdict_counts(r: ReportView, i: int)
    requires
        0 <= i < verdicts(r).len(),
        verdicts(r)[i] is Some,
        forall|j: int| 0 <= j < i ==> (#[trigger] verdicts(r)[j]) is None,
        forall|j: int|
            0 <= j < verdicts(r).len() && (#[trigger] verdicts(r)[j]) is Some ==> verdicts(
                r,
            )[j]->0.confidence != Confidence::High,
    ensures
        Some(evaluation_of(r).diagnosis) == verdicts(r)[i],
{
    assert forall|j: int| 0 <= j < verdicts(r).len() implies !high(#[trigger] verdicts(r)[j]) by {}
    lemma_no_high(verdicts(r));
    lemma_first_hit(verdicts(r), i);
}

/// The diagnosis is always the verdict of one of the rules.
pub proof fn law_diagnosis_is_a_verdict(r: ReportView)
    ensures
        verdicts(r).contains(Some(evaluation_of(r).diagnosis)),
{
    let found = verdicts(r);
    assert(found[6] == Some(guess(r)));
    lemma_chosen_is_found(found);
}

proof fn lemma_verdicts(r: ReportView)
    ensures
        verdicts(r).len() == 7,
        verdicts(r)[0] == oom_verdict(r),
        verdicts(r)[1] == missing_verdict(r),
        verdicts(r)[2] == mixin_verdict(r),
        verdicts(r)[3] == load_verdict(r),
        verdicts(r)[4] == registry_verdict(r),
        verdicts(r)[5] == tick_verdict(r),
        verdicts(r)[6] == Some(guess(r)),
{
}

proof fn lemma_whose_diagnosis(r: ReportView)
    ensures
        ({
            let d = Some(evaluation_of(r).diagnosis);
            ||| d == oom_verdict(r)
            ||| d == missing_verdict(r)
            ||| d == mixin_verdict(r)
            ||| d == load_verdict(r)
            ||| d == registry_verdict(r)
            ||| d == tick_verdict(r)
            ||| d == Some(guess(r))
        }),
{
    law_diagnosis_is_a_verdict(r);
    lemma_verdicts(r);
    let found = verdicts(r);
    let d = Some(evaluation_of(r).diagnosis);
    let i = choose|i: int| 0 <= i < found.len() && found[i] == d;
    assert(i == 0 || i == 1 || i == 2 || i == 3 || i == 4 || i == 5 || i == 6);
}

proof fn lemma_chosen_is_found(found: Seq<Option<DiagnosisView>>)
    ensures
        first_high(found) is Some ==> found.contains(first_high(found)),
        first_hit(found) is Some ==> found.contains(first_hit(found)),
        first_hit(found) is None ==> forall|i: int|
            0 <= i < found.len() ==> (#[trigger] found[i]) is None,
    decreases found.len(),
{
    if found.len() > 0 {
        let before = found.drop_last();
        lemma_chosen_is_found(before);
        assert forall|x: Option<DiagnosisView>| before.contains(x) implies found.contains(x) by {
            let i = choose|i: int| 0 <= i < before.len() && before[i] == x;
            assert(found[i] == x);
        }
        assert(found[found.len() - 1] == found.last());
        assert forall|i: int|
            first_hit(found) is None && 0 <= i < found.len() implies (#[trigger] found[i]) is None by {
            if i < before.len() {
                assert(found[i] == before[i]);
            }
        }
    }
}

/// Running out of memory comes before anything else that a report speaks of.
pub proof fn law_out_of_memory_comes_first(r: ReportView, i: int)
    requires
        0 <= i < r.exceptions.len(),
        exc_is(r.exceptions[i], "OutOfMemoryError"@),
        forall|j: int| 0 <= j < i ==> !exc_is(#[trigger] r.exceptions[j], "OutOfMemoryError"@),
    ensures
        evaluation_of(r).diagnosis == oom_diagnosis(
            r,
            r.exceptions[i],
            lowercase(oom_detail(r.exceptions[i])),
        ),
        exit_status(evaluation_of(r).diagnosis) == 0,
{
    lemma_exception_named(r.exceptions, "OutOfMemoryError"@, i);
    law_first_high_verdict_counts(r, 0);
}

proof fn lemma_exception_named(excs: Seq<ExcView>, name: Seq<char>, i: int)
    requires
        0 <= i < excs.len(),
        exc_is(excs[i], name),
        forall|j: int| 0 <= j < i ==> !exc_is(#[trigger] excs[j], name),
    ensures
        exception_named(excs, name) == Some(excs[i]),
    decreases excs.len(),
{
    if i > 0 {
        let rest = excs.skip(1);
        assert(rest[i - 1] == excs[i]);
        assert forall|j: int| 0 <= j < i - 1 implies !exc_is(#[trigger] rest[j], name) by {
            assert(rest[j] == excs[j + 1]);
        }
        lemma_exception_named(rest, name, i - 1);
    }
}

/// Confidence is low exactly where no rule knows the crash, and the diagnosis is then the guess.
pub proof fn law_low_confidence_is_a_guess(r: ReportView)
    ensures
        evaluation_of(r).diagnosis.confidence == Confidence::Low <==> {
            &&& oom_verdict(r) is None
            &&& missing_verdict(r) is None
            &&& mixin_verdict(r) is None
            &&& load_verdict(r) is None
            &&& registry_verdict(r) is None
            &&& tick_verdict(r) is None
        },
        evaluation_of(r).diagnosis.confidence == Confidence::Low ==> evaluation_of(r).diagnosis
            == guess(r),
{
    let found = verdicts(r);
    lemma_confidences(r);
    lemma_verdicts(r);
    if forall|j: int| 0 <= j < 6 ==> (#[trigger] found[j]) is None {
        lemma_first_hit(found, 6);
        assert forall|j: int| 0 <= j < found.len() implies !high(#[trigger] found[j]) by {}
        lemma_no_high(found);
    } else {
        let j = choose|j: int| 0 <= j < 6 && !((#[trigger] found[j]) is None);
        lemma_hit_before(found, j);
    }
}

/// Where one of the rules but the last has a verdict, the last is not chosen.
proof fn lemma_hit_before(found: Seq<Option<DiagnosisView>>, j: int)
    requires
        found.len() == 7,
        0 <= j < 6,
        found[j] is Some,
        forall|k: int|
            0 <= k < 6 && (#[trigger] found[k]) is Some ==> found[k]->0.confidence
                != Confidence::Low,
        found[6] is Some,
        found[6]->0.confidence == Confidence::Low,
    ensures
        chosen(found) is Some,
        chosen(found)->0.confidence != Confidence::Low,
{
    lemma_chosen_is_found(found);
    lemma_earliest_hit(found, j);
    if first_high(found) is Some {
        lemma_high_is_high(found);
    } else {
        let i = choose|i: int|
            0 <= i <= j && #[trigger] found[i] == first_hit(found) && found[i] is Some;
        assert(found[i]->0.confidence != Confidence::Low);
    }
}

proof fn lemma_high_is_high(found: Seq<Option<DiagnosisView>>)
    ensures
        first_high(found) is Some ==> high(first_high(found)),
    decreases found.len(),
{
    if found.len() > 0 {
        lemma_high_is_high(found.drop_last());
    }
}

proof fn lemma_earliest_hit(found: Seq<Option<DiagnosisView>>, j: int)
    requires
        0 <= j < found.len(),
        found[j] is Some,
    ensures
        exists|i: int| 0 <= i <= j && #[trigger] found[i] == first_hit(found) && found[i] is Some,
    decreases j,
{
    if exists|i: int| 0 <= i < j && (#[trigger] found[i]) is Some {
        let i = choose|i: int| 0 <= i < j && (#[trigger] found[i]) is Some;
        lemma_earliest_hit(found, i);
        let k = choose|k: int|
            0 <= k <= i && #[trigger] found[k] == first_hit(found) && found[k] is Some;
        assert(found[k] == first_hit(found));
    } else {
        assert forall|i: int| 0 <= i < j implies (#[trigger] found[i]) is None by {}
        lemma_first_hit(found, j);
    }
}

proof fn lemma_confidences(r: ReportView)
    ensures
        oom_verdict(r) is Some ==> oom_verdict(r)->0.confidence == Confidence::High,
        missing_verdict(r) is Some ==> missing_verdict(r)->0.confidence != Confidence::Low,
        mixin_verdict(r) is Some ==> mixin_verdict(r)->0.confidence != Confidence::Low,
        load_verdict(r) is Some ==> load_verdict(r)->0.confidence != Confidence::Low,
        registry_verdict(r) is Some ==> registry_verdict(r)->0.confidence != Confidence::Low,
        tick_verdict(r) is Some ==> tick_verdict(r)->0.confidence != Confidence::Low,
        guess(r).confidence == Confidence::Low,
{
}

/// A diagnosis of high confidence names a culprit, unless it is one of registry entries that the
/// game itself registers.
pub proof fn law_high_confidence_names_a_culprit(r: ReportView)
    ensures
        evaluation_of(r).diagnosis.confidence == Confidence::High ==> evaluation_of(
            r,
        ).diagnosis.culprit is Some || Some(evaluation_of(r).diagnosis) == registry_verdict(r),
        evaluation_of(r).diagnosis.confidence == Confidence::High && Some(
            evaluation_of(r).diagnosis,
        ) != registry_verdict(r) ==> exit_status(evaluation_of(r).diagnosis) == 0,
{
    lemma_culprits(r);
    lemma_whose_diagnosis(r);
}

spec fn named_if_high(v: Option<DiagnosisView>) -> bool {
    high(v) ==> v->0.culprit is Some
}

proof fn lemma_culprits(r: ReportView)
    ensures
        named_if_high(oom_verdict(r)),
        named_if_high(missing_verdict(r)),
        named_if_high(mixin_verdict(r)),
        named_if_high(load_verdict(r)),
        named_if_high(tick_verdict(r)),
        named_if_high(Some(guess(r))),
{
}

spec fn speaks(v: Option<DiagnosisView>) -> bool {
    v is Some ==> v->0.cause.len() > 0 && v->0.evidence.len() > 0 && v->0.fix.len() >= 2
}

proof fn lemma_memory_speaks(r: ReportView)
    ensures
        speaks(oom_verdict(r)),
{
    reveal_strlit("OutOfMemoryError (");
}

proof fn lemma_missing_speaks(r: ReportView)
    ensures
        speaks(missing_verdict(r)),
{
    reveal_strlit(": the mod asks for a ");
    reveal_strlit(": the mod calls Minecraft code that ");
    reveal_strlit(": ");
    reveal_strlit(": a class is missing from the classpath, and ");
    reveal_strlit(": a symbol is missing from the classpath. ");
}

proof fn lemma_mixin_speaks(r: ReportView)
    ensures
        speaks(mixin_verdict(r)),
{
    reveal_strlit("Mixin apply failed: ");
}

proof fn lemma_load_speaks(r: ReportView)
    ensures
        speaks(load_verdict(r)),
{
    reveal_strlit("Mod loading failed: ");
}

proof fn lemma_registry_speaks(r: ReportView)
    ensures
        speaks(registry_verdict(r)),
{
    reveal_strlit(" is missing ");
}

proof fn lemma_tick_speaks(r: ReportView)
    ensures
        speaks(tick_verdict(r)),
{
    reveal_strlit("Exception ticking ");
}

proof fn lemma_guess_speaks(r: ReportView)
    ensures
        speaks(Some(guess(r))),
{
    reveal_strlit(" belongs to ");
    reveal_strlit("crashdoctor doesn't know (っ◞‸◟ c): no rule matched this crash, and no mod package shows up in the stacktrace. The exception is ");
}

/// Every diagnosis gives a cause, evidence, and two ways at least to fix the crash.
pub proof fn law_diagnosis_gives_evidence_and_fix(r: ReportView)
    ensures
        evaluation_of(r).diagnosis.cause.len() > 0,
        evaluation_of(r).diagnosis.evidence.len() > 0,
        evaluation_of(r).diagnosis.fix.len() >= 2,
{
    lemma_memory_speaks(r);
    lemma_missing_speaks(r);
    lemma_mixin_speaks(r);
    lemma_load_speaks(r);
    lemma_registry_speaks(r);
    lemma_tick_speaks(r);
    lemma_guess_speaks(r);
    lemma_whose_diagnosis(r);
}

/// Every rule is listed once, by its name and in its order, with whether it had a verdict. The last
/// one always has.
pub proof fn law_every_rule_is_listed(r: ReportView)
    ensures
        evaluation_of(r).checks.len() == titles().len() == verdicts(r).len(),
        forall|i: int|
            0 <= i < titles().len() ==> #[trigger] evaluation_of(r).checks[i] == (
                titles()[i],
                verdicts(r)[i] is Some,
            ),
        evaluation_of(r).checks.last().1,
{
    assert(verdicts(r)[6] == Some(guess(r)));
}

/// The heap limit that is advised is above the one that was set, until it is as large as can be.
pub proof fn law_advised_heap_grows(current: u32)
    ensures
        heap_next(current) > current || current == u32::MAX,
        heap_next(current) >= 4096,
{
}

} // verus!

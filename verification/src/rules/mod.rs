//! The rules that read a diagnosis out of a report.
use vstd::prelude::*;
use crate::model::{Confidence, Diagnosis, DiagnosisView, Report, ReportView};
use crate::rules::common::verdict_of;
use crate::rules::fallback::{guess, guess_from_frames};
use crate::rules::mixin::{check_mixin, mixin_verdict};
use crate::rules::mod_load::{check_mod_load, load_verdict};
use crate::rules::oom::{check_oom, oom_verdict};
use crate::rules::registry::{check_registry, registry_verdict};
use crate::rules::symbol::{check_missing, missing_verdict};
use crate::rules::ticking::{check_tick, tick_verdict};

pub mod common;
pub mod fallback;
pub mod mixin;
pub mod mod_load;
pub mod oom;
pub mod registry;
pub mod symbol;
pub mod ticking;

verus! {

/// A kind of crash that can be told from a report.
pub trait Rule {
    /// What the rule is called.
    spec fn title(&self) -> Seq<char>;

    /// What the rule makes of a report, if it is a crash of its kind.
    spec fn verdict(&self, r: ReportView) -> Option<DiagnosisView>;

    fn name(&self) -> (r: &'static str)
        ensures
            r@ == self.title(),
    ;

    fn check(&self, r: &Report) -> (d: Option<Diagnosis>)
        ensures
            verdict_of(d) == self.verdict(r@),
    ;
}

struct OomRule;

impl Rule for OomRule {
    open spec fn title(&self) -> Seq<char> {
        "out of memory"@
    }

    open spec fn verdict(&self, r: ReportView) -> Option<DiagnosisView> {
        oom_verdict(r)
    }

    fn name(&self) -> (r: &'static str) {
        "out of memory"
    }

    fn check(&self, r: &Report) -> (d: Option<Diagnosis>) {
        check_oom(r)
    }
}

struct MissingSymbolRule;

impl Rule for MissingSymbolRule {
    open spec fn title(&self) -> Seq<char> {
        "missing symbol (NoSuchMethodError/NoSuchFieldError/NoClassDefFoundError)"@
    }

    open spec fn verdict(&self, r: ReportView) -> Option<DiagnosisView> {
        missing_verdict(r)
    }

    fn name(&self) -> (r: &'static str) {
        "missing symbol (NoSuchMethodError/NoSuchFieldError/NoClassDefFoundError)"
    }

    fn check(&self, r: &Report) -> (d: Option<Diagnosis>) {
        check_missing(r)
    }
}

struct MixinRule;

impl Rule for MixinRule {
    open spec fn title(&self) -> Seq<char> {
        "mixin apply failure"@
    }

    open spec fn verdict(&self, r: ReportView) -> Option<DiagnosisView> {
        mixin_verdict(r)
    }

    fn name(&self) -> (r: &'static str) {
        "mixin apply failure"
    }

    fn check(&self, r: &Report) -> (d: Option<Diagnosis>) {
        check_mixin(r)
    }
}

struct ModLoadRule;

impl Rule for ModLoadRule {
    open spec fn title(&self) -> Seq<char> {
        "mod loading failure"@
    }

    open spec fn verdict(&self, r: ReportView) -> Option<DiagnosisView> {
        load_verdict(r)
    }

    fn name(&self) -> (r: &'static str) {
        "mod loading failure"
    }

    fn check(&self, r: &Report) -> (d: Option<Diagnosis>) {
        check_mod_load(r)
    }
}

struct RegistryRule;

impl Rule for RegistryRule {
    open spec fn title(&self) -> Seq<char> {
        "registry mismatch"@
    }

    open spec fn verdict(&self, r: ReportView) -> Option<DiagnosisView> {
        registry_verdict(r)
    }

    fn name(&self) -> (r: &'static str) {
        "registry mismatch"
    }

    fn check(&self, r: &Report) -> (d: Option<Diagnosis>) {
        check_registry(r)
    }
}

struct TickingRule;

impl Rule for TickingRule {
    open spec fn title(&self) -> Seq<char> {
        "entity/block entity tick"@
    }

    open spec fn verdict(&self, r: ReportView) -> Option<DiagnosisView> {
        tick_verdict(r)
    }

    fn name(&self) -> (r: &'static str) {
        "entity/block entity tick"
    }

    fn check(&self, r: &Report) -> (d: Option<Diagnosis>) {
        check_tick(r)
    }
}

struct LastResortRule;

impl Rule for LastResortRule {
    open spec fn title(&self) -> Seq<char> {
        "no rule matched (package guess)"@
    }

    open spec fn verdict(&self, r: ReportView) -> Option<DiagnosisView> {
        Some(guess(r))
    }

    fn name(&self) -> (r: &'static str) {
        "no rule matched (package guess)"
    }

    fn check(&self, r: &Report) -> (d: Option<Diagnosis>) {
        Some(guess_from_frames(r))
    }
}

/// Any of the rules.
pub struct RuleBox {
    pub rule: Box<dyn Rule>,
}

impl Rule for RuleBox {
    open spec fn title(&self) -> Seq<char> {
        self.rule.title()
    }

    open spec fn verdict(&self, r: ReportView) -> Option<DiagnosisView> {
        self.rule.verdict(r)
    }

    fn name(&self) -> (r: &'static str) {
        self.rule.name()
    }

    fn check(&self, r: &Report) -> (d: Option<Diagnosis>) {
        self.rule.check(r)
    }
}

/// The names of the rules, in the order in which they are tried.
pub open spec fn titles() -> Seq<Seq<char>> {
    seq![
        "out of memory"@,
        "missing symbol (NoSuchMethodError/NoSuchFieldError/NoClassDefFoundError)"@,
        "mixin apply failure"@,
        "mod loading failure"@,
        "registry mismatch"@,
        "entity/block entity tick"@,
        "no rule matched (package guess)"@,
    ]
}

/// What each rule makes of a report, in the order in which they are tried.
pub open spec fn verdicts(r: ReportView) -> Seq<Option<DiagnosisView>> {
    seq![
        oom_verdict(r),
        missing_verdict(r),
        mixin_verdict(r),
        load_verdict(r),
        registry_verdict(r),
        tick_verdict(r),
        Some(guess(r)),
    ]
}

/// The rules, the one that always has something to say last.
pub fn rules() -> (all: Vec<RuleBox>)
    ensures
        all@.len() == titles().len(),
        forall|i: int| 0 <= i < titles().len() ==> (#[trigger] all@[i]).title() == titles()[i],
        forall|i: int, r: ReportView|
            0 <= i < titles().len() ==> #[trigger] all@[i].verdict(r) == verdicts(r)[i],
{
    vec![
        RuleBox { rule: Box::new(OomRule) },
        RuleBox { rule: Box::new(MissingSymbolRule) },
        RuleBox { rule: Box::new(MixinRule) },
        RuleBox { rule: Box::new(ModLoadRule) },
        RuleBox { rule: Box::new(RegistryRule) },
        RuleBox { rule: Box::new(TickingRule) },
        RuleBox { rule: Box::new(LastResortRule) },
    ]
}

/// A diagnosis, and which of the rules had one to make.
pub struct Evaluation {
    pub diagnosis: Diagnosis,
    pub checks: Vec<(&'static str, bool)>,
}

pub struct EvaluationView {
    pub diagnosis: DiagnosisView,
    pub checks: Seq<(Seq<char>, bool)>,
}

pub open spec fn checks_of(checks: Seq<(&'static str, bool)>) -> Seq<(Seq<char>, bool)> {
    checks.map_values(|c: (&'static str, bool)| (c.0@, c.1))
}

impl View for Evaluation {
    type V = EvaluationView;

    open spec fn view(&self) -> EvaluationView {
        EvaluationView { diagnosis: self.diagnosis@, checks: checks_of(self.checks@) }
    }
}

/// The first verdict of high confidence.
pub open spec fn first_high(found: Seq<Option<DiagnosisView>>) -> Option<DiagnosisView>
    decreases found.len(),
{
    if found.len() == 0 {
        None
    } else {
        match (first_high(found.drop_last()), found.last()) {
            (Some(d), _) => Some(d),
            (None, Some(d)) => if d.confidence == Confidence::High {
                Some(d)
            } else {
                None
            },
            (None, None) => None,
        }
    }
}

/// The first verdict.
pub open spec fn first_hit(found: Seq<Option<DiagnosisView>>) -> Option<DiagnosisView>
    decreases found.len(),
{
    if found.len() == 0 {
        None
    } else {
        match first_hit(found.drop_last()) {
            Some(d) => Some(d),
            None => found.last(),
        }
    }
}

/// The verdict that counts: the first of high confidence, else the first.
pub open spec fn chosen(found: Seq<Option<DiagnosisView>>) -> Option<DiagnosisView> {
    match first_high(found) {
        Some(d) => Some(d),
        None => first_hit(found),
    }
}

/// The name of each rule, and whether it had something to say.
pub open spec fn check_list(names: Seq<Seq<char>>, found: Seq<Option<DiagnosisView>>) -> Seq<
    (Seq<char>, bool),
> {
    Seq::new(names.len(), |i: int| (names[i], found[i] is Some))
}

/// What all the rules together make of a report.
pub open spec fn evaluation_of(r: ReportView) -> EvaluationView {
    EvaluationView {
        diagnosis: match chosen(verdicts(r)) {
            Some(d) => d,
            None => guess(r),
        },
        checks: check_list(titles(), verdicts(r)),
    }
}

spec fn titles_of(all: Seq<RuleBox>) -> Seq<Seq<char>> {
    all.map_values(|b: RuleBox| b.title())
}

spec fn verdicts_of(all: Seq<RuleBox>, r: ReportView) -> Seq<Option<DiagnosisView>> {
    all.map_values(|b: RuleBox| b.verdict(r))
}

/// Tries each of `all`.
fn try_rules(all: &Vec<RuleBox>, r: &Report) -> (e: (Option<Diagnosis>, Vec<(&'static str, bool)>))
    ensures
        verdict_of(e.0) == chosen(verdicts_of(all@, r@)),
        checks_of(e.1@) == check_list(titles_of(all@), verdicts_of(all@, r@)),
{
    let ghost names = titles_of(all@);
    let ghost found = verdicts_of(all@, r@);
    let ghost expected = check_list(names, found);
    let mut checks: Vec<(&'static str, bool)> = Vec::new();
    let mut high: Option<Diagnosis> = None;
    let mut first: Option<Diagnosis> = None;
    assert(checks_of(checks@) =~= expected.take(0));
    let mut i: usize = 0;
    while i < all.len()
        invariant
            i <= all.len(),
            names == titles_of(all@),
            found == verdicts_of(all@, r@),
            expected == check_list(names, found),
            checks_of(checks@) == expected.take(i as int),
            verdict_of(high) == first_high(found.take(i as int)),
            high is None ==> verdict_of(first) == first_hit(found.take(i as int)),
        decreases all.len() - i,
    {
        let rule = &all[i];
        let verdict = rule.check(r);
        let name = rule.name();
        let ghost before = checks@;
        checks.push((name, verdict.is_some()));
        assert(names[i as int] == name@);
        assert(found[i as int] == verdict_of(verdict));
        assert(checks_of(checks@) =~= checks_of(before).push((name@, verdict is Some)));
        assert(expected.take(i + 1) =~= expected.take(i as int).push(expected[i as int]));
        assert(found.take(i + 1).drop_last() =~= found.take(i as int));
        assert(found.take(i + 1).last() == found[i as int]);
        if let Some(d) = verdict {
            if high.is_none() && d.confidence == Confidence::High {
                high = Some(d);
            } else if first.is_none() {
                first = Some(d);
            }
        }
        i = i + 1;
    }
    assert(found.take(i as int) =~= found);
    assert(expected.take(i as int) =~= expected);
    match high {
        Some(d) => (Some(d), checks),
        None => (first, checks),
    }
}

/// Tries every rule and takes the verdict that counts.
pub fn evaluate(r: &Report) -> (e: Evaluation)
    ensures
        e@ == evaluation_of(r@),
{
    let all = rules();
    assert(titles_of(all@) =~= titles());
    assert(verdicts_of(all@, r@) =~= verdicts(r@));
    let (verdict, checks) = try_rules(&all, r);
    let diagnosis = match verdict {
        Some(d) => d,
        None => guess_from_frames(r),
    };
    Evaluation { diagnosis, checks }
}

/// The diagnosis of a report.
pub fn diagnose(r: &Report) -> (d: Diagnosis)
    ensures
        d@ == evaluation_of(r@).diagnosis,
{
    evaluate(r).diagnosis
}

} // verus!

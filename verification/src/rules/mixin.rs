//! A mixin could not be applied to the class that it patches.
use vstd::prelude::*;
use crate::model::{
    exc_simple, exc_text, excs_of, loader_label, mod_with_id, root_cause_of, Confidence, Diagnosis,
    DiagnosisView, Exc, ExcView, ModView, Report, ReportView,
};
use crate::pattern::{captures_of, group_in, group_text, groups_of, Groups, Pattern};
use crate::rules::common::{new_lines, no_lines, push_entry_and_env, verdict_of, with_entry_and_env};
use crate::rules::symbol::{first_mod, label_or, label_text, mod_of_frame, string_or};
use crate::text::{
    before_suffix, cat2, cat3, cat4, cat5, cat7, has, push_text, same, starts_with, strip_suffix,
    text_of, text_or, trim, trimmed, truncate, truncated,
};

verus! {

pub const MIXIN_APPLY: &'static str = r"(?m)Mixin apply for mod ([\w.\-]+) failed:\s*(.+)$";

pub const MIXIN_CONFIG: &'static str = r"([\w.\-]+\.mixins?\.json)";

pub const MIXIN_ARROW: &'static str = r"([\w.$]+)\s*->\s*([\w.$]+)";

pub const MIXIN_HOOK: &'static str = r"@(\w+)(?: annotation)? on ([\w$]+)";

pub const MIXIN_CHECK: &'static str = r"\((\d+)/(\d+)\) succeeded";

/// What the report's text says of a mixin.
pub struct MixinSigns {
    /// The mod whose mixin failed, and what went wrong.
    pub apply: Option<Groups>,
    /// The file that configures the mixin.
    pub config: Option<Groups>,
    /// The mixin and the class that it patches.
    pub arrow: Option<Groups>,
    /// The annotation and the method that it stands on.
    pub hook: Option<Groups>,
    /// How many targets matched, and of how many.
    pub check: Option<Groups>,
}

pub struct MixinView {
    pub apply: Option<Seq<Option<Seq<char>>>>,
    pub config: Option<Seq<Option<Seq<char>>>>,
    pub arrow: Option<Seq<Option<Seq<char>>>>,
    pub hook: Option<Seq<Option<Seq<char>>>>,
    pub check: Option<Seq<Option<Seq<char>>>>,
}

impl View for MixinSigns {
    type V = MixinView;

    open spec fn view(&self) -> MixinView {
        MixinView {
            apply: groups_of(self.apply),
            config: groups_of(self.config),
            arrow: groups_of(self.arrow),
            hook: groups_of(self.hook),
            check: groups_of(self.check),
        }
    }
}

/// What a report's text says of a mixin.
pub open spec fn mixin_signs(raw: Seq<char>) -> MixinView {
    MixinView {
        apply: captures_of(MIXIN_APPLY@, raw),
        config: captures_of(MIXIN_CONFIG@, raw),
        arrow: captures_of(MIXIN_ARROW@, raw),
        hook: captures_of(MIXIN_HOOK@, raw),
        check: captures_of(MIXIN_CHECK@, raw),
    }
}

pub open spec fn mixin_error(kind: Seq<char>) -> bool {
    ||| kind == "MixinTransformerError"@
    ||| kind == "MixinApplyError"@
    ||| kind == "InvalidMixinException"@
    ||| kind == "MixinException"@
    ||| kind == "InvalidInjectionException"@
    ||| kind == "InjectionError"@
    ||| kind == "MixinInitialisationError"@
    ||| kind == "InvalidAccessorException"@
}

fn is_mixin_error(kind: &str) -> (r: bool)
    ensures
        r == mixin_error(kind@),
{
    same(kind, "MixinTransformerError") || same(kind, "MixinApplyError") || same(
        kind,
        "InvalidMixinException",
    ) || same(kind, "MixinException") || same(kind, "InvalidInjectionException") || same(
        kind,
        "InjectionError",
    ) || same(kind, "MixinInitialisationError") || same(kind, "InvalidAccessorException")
}

/// The first exception that a mixin is the reason of.
pub open spec fn mixin_exc(excs: Seq<ExcView>) -> Option<ExcView>
    decreases excs.len(),
{
    if excs.len() == 0 {
        None
    } else if mixin_error(exc_simple(excs[0])) {
        Some(excs[0])
    } else {
        mixin_exc(excs.skip(1))
    }
}

fn find_mixin_exc(excs: &Vec<Exc>) -> (r: Option<&Exc>)
    ensures
        match r {
            Some(e) => mixin_exc(excs_of(excs@)) == Some(e@),
            None => mixin_exc(excs_of(excs@)) is None,
        },
{
    let ghost all = excs_of(excs@);
    let mut i: usize = 0;
    assert(all.skip(0) =~= all);
    while i < excs.len()
        invariant
            i <= excs.len(),
            all == excs_of(excs@),
            mixin_exc(all) == mixin_exc(all.skip(i as int)),
        decreases excs.len() - i,
    {
        let e = &excs[i];
        assert(all.skip(i as int)[0] == e@);
        assert(all.skip(i as int).skip(1) =~= all.skip(i + 1));
        if is_mixin_error(e.simple()) {
            return Some(e);
        }
        i = i + 1;
    }
    None
}

/// Whether a report speaks of a mixin that failed.
pub open spec fn mixin_failed(r: ReportView) -> bool {
    ||| mixin_exc(r.exceptions) is Some
    ||| has(r.raw, "Mixin apply"@)
    ||| has(r.raw, "MixinTransformerError"@)
    ||| has(r.raw, "MixinApplyError"@)
}

/// The name of a mixin configuration without its ending.
pub open spec fn config_stem(config: Seq<char>) -> Seq<char> {
    match before_suffix(config, ".mixins.json"@) {
        Some(s) => s,
        None => match before_suffix(config, ".mixin.json"@) {
            Some(s) => s,
            None => match before_suffix(config, ".mixins"@) {
                Some(s) => s,
                None => match before_suffix(config, ".mixin"@) {
                    Some(s) => s,
                    None => match before_suffix(config, ".json"@) {
                        Some(s) => s,
                        None => config,
                    },
                },
            },
        },
    }
}

/// The mod that a mixin configuration belongs to, by the name of its file.
pub open spec fn config_mod(config: Seq<char>) -> Seq<char> {
    let name = config_stem(config);
    match before_suffix(name, "-common"@) {
        Some(s) => s,
        None => match before_suffix(name, "-client"@) {
            Some(s) => s,
            None => match before_suffix(name, "-server"@) {
                Some(s) => s,
                None => match before_suffix(name, "-main"@) {
                    Some(s) => s,
                    None => name,
                },
            },
        },
    }
}

fn stem_of<'a>(config: &'a str) -> (r: &'a str)
    ensures
        r@ == config_stem(config@),
{
    if let Some(s) = strip_suffix(config, ".mixins.json") {
        return s;
    }
    if let Some(s) = strip_suffix(config, ".mixin.json") {
        return s;
    }
    if let Some(s) = strip_suffix(config, ".mixins") {
        return s;
    }
    if let Some(s) = strip_suffix(config, ".mixin") {
        return s;
    }
    if let Some(s) = strip_suffix(config, ".json") {
        return s;
    }
    config
}

pub fn mod_id_from_config(config: &str) -> (r: String)
    ensures
        r@ == config_mod(config@),
{
    let name = stem_of(config);
    if let Some(s) = strip_suffix(name, "-common") {
        return s.to_owned();
    }
    if let Some(s) = strip_suffix(name, "-client") {
        return s.to_owned();
    }
    if let Some(s) = strip_suffix(name, "-server") {
        return s.to_owned();
    }
    if let Some(s) = strip_suffix(name, "-main") {
        return s.to_owned();
    }
    name.to_owned()
}

/// The id of the mod whose mixin failed: as the text gives it, else by the configuration's name,
/// else that of the first frame of a mod.
pub open spec fn mixin_mod(r: ReportView, m: MixinView) -> Option<Seq<char>> {
    match group_in(m.apply, 1) {
        Some(id) => Some(id),
        None => match group_in(m.config, 1) {
            Some(config) => Some(config_mod(config)),
            None => match first_mod(r) {
                Some(found) => Some(found.id),
                None => None,
            },
        },
    }
}

/// The entry of the mod whose mixin failed.
pub open spec fn mixin_entry(r: ReportView, m: MixinView) -> Option<ModView> {
    match mixin_mod(r, m) {
        Some(id) => mod_with_id(r.mods, id),
        None => None,
    }
}

pub open spec fn mixin_who(r: ReportView, m: MixinView) -> Seq<char> {
    text_or(mixin_mod(r, m), "that mod"@)
}

/// The class that the mixin patches, in words.
pub open spec fn mixin_target(m: MixinView) -> Seq<char> {
    match group_in(m.arrow, 2) {
        Some(t) => if "net.minecraft."@.is_prefix_of(t) {
            "the vanilla class "@ + t
        } else {
            t
        },
        None => "a game class"@,
    }
}

pub open spec fn mixin_cause(who: Seq<char>, target: Seq<char>) -> Seq<char> {
    "Mixin apply failed: "@ + who + "'s mixin could not be applied to "@ + target
        + ", and the injection no longer matches those targets. Either the Forge/MC build moved or another mod patches the same class"@
}

pub open spec fn mixin_evidence(r: ReportView, m: MixinView) -> Seq<Seq<char>> {
    let e = match group_in(m.config, 1) {
        Some(cfg) => no_lines().push("mixin config: "@ + cfg),
        None => no_lines(),
    };
    let e = match (group_in(m.arrow, 1), group_in(m.arrow, 2)) {
        (Some(mixin), Some(target)) => e.push("mixin: "@ + mixin + " -> "@ + target),
        _ => e,
    };
    let e = match (group_in(m.hook, 1), group_in(m.hook, 2)) {
        (Some(kind), Some(method)) => match (group_in(m.check, 1), group_in(m.check, 2)) {
            (Some(hit), Some(all)) => e.push(
                "injection: @"@ + kind + " on "@ + method + "() matched "@ + hit + ("/"@ + all
                    + " targets"@),
            ),
            _ => e.push("injection: @"@ + kind + " on "@ + method + "()"@),
        },
        _ => e,
    };
    let e = match group_in(m.apply, 2) {
        Some(rest) => e.push("error: "@ + truncated(trimmed(rest), 220)),
        None => {
            let exc = if mixin_exc(r.exceptions) is Some {
                mixin_exc(r.exceptions)
            } else {
                root_cause_of(r.exceptions)
            };
            match exc {
                Some(exc) => e.push("error: "@ + truncated(exc_text(exc), 220)),
                None => e,
            }
        },
    };
    with_entry_and_env(e, mixin_entry(r, m), r)
}

pub open spec fn mixin_fix(r: ReportView, who: Seq<char>, target: Seq<char>) -> Seq<Seq<char>> {
    no_lines().push("update "@ + who + ": its mixin went stale against "@ + target).push(
        "if another mod also injects into that class, two mixins on the same method fight each other: boot without one of them"@,
    ).push(
        "minimal test: "@ + loader_label(r.loader) + " + "@ + who
            + " alone, to confirm the crash is theirs"@,
    )
}

pub open spec fn mixin_dev_tip(m: MixinView) -> Seq<Seq<char>> {
    let t = match (group_in(m.arrow, 1), group_in(m.arrow, 2)) {
        (Some(mixin), Some(target)) => no_lines().push(
            "if you are a dev, decompile "@ + target + " and read the method "@ + mixin
                + " injects into: the target moved or its signature changed, so your injection point has to follow it"@,
        ),
        _ => no_lines().push(
            "if you are a dev, decompile the target class and read the method your mixin injects into: the injection point moved or the signature changed"@,
        ),
    };
    let t = t.push(
        "check the refmap inside the jar too. A stale refmap misses the target even when the method is there, and it is the usual reason behind 0 targets matched"@,
    );
    match group_in(m.arrow, 2) {
        Some(target) => if "net.minecraft."@.is_prefix_of(target) {
            t
        } else {
            t.push(
                "the target "@ + target
                    + " is not vanilla, so another mod moved that method: pin the version of that mod, and tell its author if the API changed"@,
            )
        },
        None => t,
    }
}

/// The diagnosis for a mixin that failed.
pub open spec fn mixin_diagnosis(r: ReportView, m: MixinView) -> DiagnosisView {
    let who = mixin_who(r, m);
    let target = mixin_target(m);
    DiagnosisView {
        culprit: Some(
            label_or(mixin_entry(r, m), text_or(mixin_mod(r, m), "an unknown mod"@)),
        ),
        cause: mixin_cause(who, target),
        evidence: mixin_evidence(r, m),
        fix: mixin_fix(r, who, target),
        dev_tip: mixin_dev_tip(m),
        confidence: if mixin_entry(r, m) is None {
            Confidence::Medium
        } else {
            Confidence::High
        },
    }
}

/// What the rule finds: something where the report speaks of a mixin that failed.
pub open spec fn mixin_verdict(r: ReportView) -> Option<DiagnosisView> {
    if mixin_failed(r) {
        Some(mixin_diagnosis(r, mixin_signs(r.raw)))
    } else {
        None
    }
}

fn failing_mod(r: &Report, m: &MixinSigns) -> (id: Option<String>)
    ensures
        text_of(id) == mixin_mod(r@, m@),
{
    let by_text = group_text(&m.apply, 1);
    if by_text.is_some() {
        return by_text;
    }
    match group_text(&m.config, 1) {
        Some(config) => Some(mod_id_from_config(&config)),
        None => match mod_of_frame(r, r.first_mod_frame()) {
            Some(found) => Some(found.id.clone()),
            None => None,
        },
    }
}

/// Names the mod behind a mixin that failed.
pub fn diagnose_mixin(r: &Report, m: &MixinSigns) -> (d: Diagnosis)
    ensures
        d@ == mixin_diagnosis(r@, m@),
{
    let id = failing_mod(r, m);
    let entry = match &id {
        Some(id) => r.mod_by_id(id),
        None => None,
    };
    let culprit = label_text(entry, &string_or(&id, "an unknown mod"));
    let who = string_or(&id, "that mod");
    let mixin = group_text(&m.arrow, 1);
    let target = group_text(&m.arrow, 2);
    let target_txt = match &target {
        Some(t) => if starts_with(t, "net.minecraft.") {
            cat2("the vanilla class ", t)
        } else {
            t.clone()
        },
        None => "a game class".to_owned(),
    };
    let cause = cat5(
        "Mixin apply failed: ",
        &who,
        "'s mixin could not be applied to ",
        &target_txt,
        ", and the injection no longer matches those targets. Either the Forge/MC build moved or another mod patches the same class",
    );
    let confidence = if entry.is_none() {
        Confidence::Medium
    } else {
        Confidence::High
    };
    let mut evidence = new_lines();
    let mut fix = new_lines();
    let mut dev_tip = new_lines();

    if let Some(cfg) = group_text(&m.config, 1) {
        push_text(&mut evidence, cat2("mixin config: ", &cfg));
    }
    if let (Some(mc), Some(tc)) = (&mixin, &target) {
        push_text(&mut evidence, cat4("mixin: ", mc, " -> ", tc));
    }
    if let (Some(kind), Some(method)) = (group_text(&m.hook, 1), group_text(&m.hook, 2)) {
        match (group_text(&m.check, 1), group_text(&m.check, 2)) {
            (Some(hit), Some(all)) => push_text(
                &mut evidence,
                cat7(
                    "injection: @",
                    &kind,
                    " on ",
                    &method,
                    "() matched ",
                    &hit,
                    &cat3("/", &all, " targets"),
                ),
            ),
            _ => push_text(&mut evidence, cat5("injection: @", &kind, " on ", &method, "()")),
        }
    }
    match group_text(&m.apply, 2) {
        Some(rest) => push_text(&mut evidence, cat2("error: ", &truncate(trim(&rest), 220))),
        None => {
            let exc = match find_mixin_exc(&r.exceptions) {
                Some(e) => Some(e),
                None => r.root_cause(),
            };
            if let Some(e) = exc {
                push_text(&mut evidence, cat2("error: ", &truncate(&e.text(), 220)));
            }
        },
    }
    push_entry_and_env(&mut evidence, entry, r);

    push_text(&mut fix, cat4("update ", &who, ": its mixin went stale against ", &target_txt));
    push_text(
        &mut fix,
        "if another mod also injects into that class, two mixins on the same method fight each other: boot without one of them".to_owned(),
    );
    push_text(
        &mut fix,
        cat5(
            "minimal test: ",
            r.loader.label(),
            " + ",
            &who,
            " alone, to confirm the crash is theirs",
        ),
    );

    match (&mixin, &target) {
        (Some(mc), Some(tc)) => push_text(
            &mut dev_tip,
            cat5(
                "if you are a dev, decompile ",
                tc,
                " and read the method ",
                mc,
                " injects into: the target moved or its signature changed, so your injection point has to follow it",
            ),
        ),
        _ => push_text(
            &mut dev_tip,
            "if you are a dev, decompile the target class and read the method your mixin injects into: the injection point moved or the signature changed".to_owned(),
        ),
    }
    push_text(
        &mut dev_tip,
        "check the refmap inside the jar too. A stale refmap misses the target even when the method is there, and it is the usual reason behind 0 targets matched".to_owned(),
    );
    if let Some(tc) = &target {
        if !starts_with(tc, "net.minecraft.") {
            push_text(
                &mut dev_tip,
                cat3(
                    "the target ",
                    tc,
                    " is not vanilla, so another mod moved that method: pin the version of that mod, and tell its author if the API changed",
                ),
            );
        }
    }
    Diagnosis { culprit: Some(culprit), cause, evidence, fix, dev_tip, confidence }
}

pub fn check_mixin(r: &Report) -> (d: Option<Diagnosis>)
    ensures
        verdict_of(d) == mixin_verdict(r@),
{
    if find_mixin_exc(&r.exceptions).is_none() && !r.contains("Mixin apply") && !r.contains(
        "MixinTransformerError",
    ) && !r.contains("MixinApplyError") {
        return None;
    }
    let raw: &str = &r.raw;
    let signs = MixinSigns {
        apply: Pattern::new(MIXIN_APPLY).captures(raw),
        config: Pattern::new(MIXIN_CONFIG).captures(raw),
        arrow: Pattern::new(MIXIN_ARROW).captures(raw),
        hook: Pattern::new(MIXIN_HOOK).captures(raw),
        check: Pattern::new(MIXIN_CHECK).captures(raw),
    };
    Some(diagnose_mixin(r, &signs))
}

} // verus!

//! What holds of mixins and mods that do not load.
use vstd::prelude::*;
use crate::laws::blame::{
    law_mixin_is_of_the_configuration, law_mixin_is_of_the_mod_that_is_named, listed_first,
    unlisted,
};
use crate::laws::wording::{
    all_in, law_around_a_sign, law_ends_are_taken_off, law_has, law_no_sign,
    law_suffixes_are_taken_off,
};
use crate::model::{exc_simple, Confidence, ExcView, ModView, ReportView};
use crate::pattern::{captures_of, field_in, group_in};
use crate::rules::mixin::{
    config_mod, config_stem, mixin_exc, mixin_target, mixin_verdict, MixinView, MIXIN_APPLY,
    MIXIN_CONFIG,
};
use crate::rules::mod_load::{
    failure_of, jar_mod, listed_stem, load_diagnosis, load_error, load_signs, load_verdict,
    name_of_file, FailureView, LoadView, FAILURE_MESSAGE, PAREN_ID,
};
use crate::text::{has, lowercase, truncated, CharSet};

verus! {

/// Whether an exception is one of the mixin library's.
pub open spec fn of_a_mixin(e: ExcView) -> bool {
    ||| exc_simple(e) == "MixinTransformerError"@
    ||| exc_simple(e) == "MixinApplyError"@
    ||| exc_simple(e) == "InvalidMixinException"@
    ||| exc_simple(e) == "MixinException"@
    ||| exc_simple(e) == "InvalidInjectionException"@
    ||| exc_simple(e) == "InjectionError"@
    ||| exc_simple(e) == "MixinInitialisationError"@
    ||| exc_simple(e) == "InvalidAccessorException"@
}

proof fn lemma_mixin_exc(excs: Seq<ExcView>)
    ensures
        mixin_exc(excs) is Some <==> exists|i: int|
            0 <= i < excs.len() && of_a_mixin(#[trigger] excs[i]),
    decreases excs.len(),
{
    if excs.len() > 0 {
        let rest = excs.skip(1);
        lemma_mixin_exc(rest);
        if of_a_mixin(excs[0]) {
        } else if exists|i: int| 0 <= i < rest.len() && of_a_mixin(#[trigger] rest[i]) {
            let i = choose|i: int| 0 <= i < rest.len() && of_a_mixin(#[trigger] rest[i]);
            assert(excs[i + 1] == rest[i]);
        }
        if exists|i: int| 0 <= i < excs.len() && of_a_mixin(#[trigger] excs[i]) {
            let i = choose|i: int| 0 <= i < excs.len() && of_a_mixin(#[trigger] excs[i]);
            if i > 0 {
                assert(rest[i - 1] == excs[i]);
            }
        }
    }
}

/// A mixin failed exactly where an exception of the mixin library or the text says so.
pub proof fn law_when_a_mixin_failed(r: ReportView)
    ensures
        mixin_verdict(r) is Some <==> {
            ||| exists|i: int| 0 <= i < r.exceptions.len() && of_a_mixin(#[trigger] r.exceptions[i])
            ||| has(r.raw, "Mixin apply"@)
            ||| has(r.raw, "MixinTransformerError"@)
            ||| has(r.raw, "MixinApplyError"@)
        },
{
    lemma_mixin_exc(r.exceptions);
}

/// The verdict on a mixin is about the mod that the text names, whatever configuration it names
/// besides.
pub proof fn law_mixin_verdict_is_about_who_is_named(r: ReportView, x: Seq<char>, j: int)
    requires
        has(r.raw, "Mixin apply"@),
        group_in(captures_of(MIXIN_APPLY@, r.raw), 1) == Some(x),
    ensures
        mixin_verdict(r) is Some,
        listed_first(r.mods, x, j) ==> mixin_verdict(r)->0.culprit == Some(
            r.mods[j].id + " "@ + r.mods[j].version,
        ) && mixin_verdict(r)->0.confidence == Confidence::High,
        unlisted(r.mods, x) ==> mixin_verdict(r)->0.culprit == Some(x),
        ("update "@ + x + ": "@).is_prefix_of(mixin_verdict(r)->0.fix[0]),
{
    law_mixin_is_of_the_mod_that_is_named(r, crate::rules::mixin::mixin_signs(r.raw), x, j);
}

/// The verdict on a mixin is about the mod of the configuration where the text names no mod.
pub proof fn law_mixin_verdict_is_about_the_configuration(r: ReportView, config: Seq<char>, j: int)
    requires
        has(r.raw, "Mixin apply"@),
        group_in(captures_of(MIXIN_APPLY@, r.raw), 1) is None,
        group_in(captures_of(MIXIN_CONFIG@, r.raw), 1) == Some(config),
    ensures
        mixin_verdict(r) is Some,
        listed_first(r.mods, config_mod(config), j) ==> mixin_verdict(r)->0.culprit == Some(
            r.mods[j].id + " "@ + r.mods[j].version,
        ),
        unlisted(r.mods, config_mod(config)) ==> mixin_verdict(r)->0.culprit == Some(
            config_mod(config),
        ),
        mixin_verdict(r)->0.evidence[0] == "mixin config: "@ + config,
{
    law_mixin_is_of_the_configuration(r, crate::rules::mixin::mixin_signs(r.raw), config, j);
}

/// The class that a mixin patches is the one behind the arrow, and is told as the game's where it
/// is; else it is some class of the game.
pub proof fn law_target_of_a_mixin(m: MixinView, t: Seq<char>)
    ensures
        group_in(m.arrow, 2) == Some(t) && !"net.minecraft."@.is_prefix_of(t) ==> mixin_target(m)
            == t,
        group_in(m.arrow, 2) == Some(t) && "net.minecraft."@.is_prefix_of(t) ==> mixin_target(m)
            == "the vanilla class "@ + t,
        group_in(m.arrow, 2) is None ==> mixin_target(m) == "a game class"@,
{
}

proof fn lemma_other_end(s: Seq<char>, p: Seq<char>, q: Seq<char>, k: int)
    requires
        0 < k <= p.len(),
        k <= q.len(),
        p[p.len() - k] != q[q.len() - k],
    ensures
        !q.is_suffix_of(s + p),
{
    let t = s + p;
    assert(t[t.len() - k] == p[p.len() - k]);
    if q.is_suffix_of(t) {
        assert(t.subrange(t.len() - q.len(), t.len() as int)[q.len() - k] == q[q.len() - k]);
    }
}

proof fn lemma_no_long_end(s: Seq<char>)
    ensures
        !".mixins.json"@.is_suffix_of(s + ".mixin.json"@),
{
    reveal_strlit(".mixin.json");
    reveal_strlit(".mixins.json");
    lemma_other_end(s, ".mixin.json"@, ".mixins.json"@, 6);
}

proof fn lemma_no_json_end(s: Seq<char>)
    ensures
        !".mixins.json"@.is_suffix_of(s + ".mixins"@),
{
    reveal_strlit(".mixins");
    reveal_strlit(".mixins.json");
    lemma_other_end(s, ".mixins"@, ".mixins.json"@, 1);
}

proof fn lemma_no_short_json_end(s: Seq<char>)
    ensures
        !".mixin.json"@.is_suffix_of(s + ".mixins"@),
{
    reveal_strlit(".mixins");
    reveal_strlit(".mixin.json");
    lemma_other_end(s, ".mixins"@, ".mixin.json"@, 1);
}

proof fn lemma_no_long_end_again(s: Seq<char>)
    ensures
        !".mixins.json"@.is_suffix_of(s + ".mixin"@),
{
    reveal_strlit(".mixin");
    reveal_strlit(".mixins.json");
    lemma_other_end(s, ".mixin"@, ".mixins.json"@, 2);
}

proof fn lemma_no_short_json_end_again(s: Seq<char>)
    ensures
        !".mixin.json"@.is_suffix_of(s + ".mixin"@),
{
    reveal_strlit(".mixin");
    reveal_strlit(".mixin.json");
    lemma_other_end(s, ".mixin"@, ".mixin.json"@, 2);
}

proof fn lemma_no_plural_end(s: Seq<char>)
    ensures
        !".mixins"@.is_suffix_of(s + ".mixin"@),
{
    reveal_strlit(".mixin");
    reveal_strlit(".mixins");
    lemma_other_end(s, ".mixin"@, ".mixins"@, 1);
}

proof fn lemma_json_is_no_plural(s: Seq<char>)
    ensures
        !".mixins"@.is_suffix_of(s + ".json"@),
{
    reveal_strlit(".json");
    reveal_strlit(".mixins");
    lemma_other_end(s, ".json"@, ".mixins"@, 1);
}

proof fn lemma_json_is_no_singular(s: Seq<char>)
    ensures
        !".mixin"@.is_suffix_of(s + ".json"@),
{
    reveal_strlit(".json");
    reveal_strlit(".mixin");
    lemma_other_end(s, ".json"@, ".mixin"@, 2);
}

proof fn lemma_inner_end(s: Seq<char>, p: Seq<char>, q: Seq<char>)
    requires
        (p + q).is_suffix_of(s + q),
    ensures
        p.is_suffix_of(s),
{
    let t = s + q;
    let n = p.len() as int;
    assert(s.subrange(s.len() - n, s.len() as int) =~= p) by {
        assert forall|k: int| 0 <= k < n implies s[s.len() - n + k] == p[k] by {
            assert(t.subrange(t.len() - (p + q).len(), t.len() as int)[k] == (p + q)[k]);
        }
    }
}

proof fn lemma_ends_join()
    ensures
        ".mixins"@ + ".json"@ == ".mixins.json"@,
        ".mixin"@ + ".json"@ == ".mixin.json"@,
{
    reveal_strlit(".mixins.json");
    reveal_strlit(".mixin.json");
    reveal_strlit(".mixins");
    reveal_strlit(".mixin");
    reveal_strlit(".json");
    assert(".mixins"@ + ".json"@ =~= ".mixins.json"@);
    assert(".mixin"@ + ".json"@ =~= ".mixin.json"@);
}

/// The endings that mixin configurations have do not belong to their names.
pub proof fn law_stem_of_a_configuration(s: Seq<char>)
    ensures
        config_stem(s + ".mixins.json"@) == s,
        config_stem(s + ".mixin.json"@) == s,
        config_stem(s + ".mixins"@) == s,
        config_stem(s + ".mixin"@) == s,
        !".mixins"@.is_suffix_of(s) && !".mixin"@.is_suffix_of(s) ==> config_stem(s + ".json"@) == s,
{
    law_ends_are_taken_off(".mixins.json"@, s);
    law_ends_are_taken_off(".mixin.json"@, s);
    law_ends_are_taken_off(".mixins"@, s);
    law_ends_are_taken_off(".mixin"@, s);
    law_ends_are_taken_off(".json"@, s);
    lemma_no_long_end(s);
    lemma_no_json_end(s);
    lemma_no_short_json_end(s);
    lemma_no_long_end_again(s);
    lemma_no_short_json_end_again(s);
    lemma_no_plural_end(s);
    lemma_json_is_no_plural(s);
    lemma_json_is_no_singular(s);
    lemma_ends_join();
    if ".mixins.json"@.is_suffix_of(s + ".json"@) {
        lemma_inner_end(s, ".mixins"@, ".json"@);
    }
    if ".mixin.json"@.is_suffix_of(s + ".json"@) {
        lemma_inner_end(s, ".mixin"@, ".json"@);
    }
}

/// The sides and parts that configurations are named after do not belong to the mod's id, and the
/// rest of the name does.
pub proof fn law_mod_of_a_configuration(config: Seq<char>, s: Seq<char>)
    ensures
        config_stem(config) == s + "-common"@ ==> config_mod(config) == s,
        config_stem(config) == s + "-client"@ ==> config_mod(config) == s,
        config_stem(config) == s + "-server"@ ==> config_mod(config) == s,
        config_stem(config) == s + "-main"@ ==> config_mod(config) == s,
        !"-common"@.is_suffix_of(config_stem(config)) && !"-client"@.is_suffix_of(
            config_stem(config),
        ) && !"-server"@.is_suffix_of(config_stem(config)) && !"-main"@.is_suffix_of(
            config_stem(config),
        ) ==> config_mod(config) == config_stem(config),
{
    reveal_strlit("-common");
    reveal_strlit("-client");
    reveal_strlit("-server");
    reveal_strlit("-main");
    law_ends_are_taken_off("-common"@, s);
    law_ends_are_taken_off("-client"@, s);
    law_ends_are_taken_off("-server"@, s);
    law_ends_are_taken_off("-main"@, s);
    lemma_other_end(s, "-client"@, "-common"@, 1);
    lemma_other_end(s, "-server"@, "-common"@, 1);
    lemma_other_end(s, "-server"@, "-client"@, 1);
    lemma_other_end(s, "-main"@, "-common"@, 2);
    lemma_other_end(s, "-main"@, "-client"@, 1);
    lemma_other_end(s, "-main"@, "-server"@, 1);
}

/// Loading failed exactly where the loader gives a message or the text says so, in any case of its
/// letters.
pub proof fn law_when_loading_failed(r: ReportView)
    ensures
        load_verdict(r) is Some <==> {
            ||| field_in(captures_of(FAILURE_MESSAGE@, r.raw), 1) is Some
            ||| has(lowercase(r.raw), "mod loading has failed"@)
            ||| has(lowercase(r.raw), "mod loading error"@)
        },
        load_verdict(r) matches Some(d) ==> d.evidence.contains(
            "error: "@ + truncated(load_error(load_signs(r.raw)), 240),
        ),
{
    if let Some(d) = load_verdict(r) {
        let line = "error: "@ + truncated(load_error(load_signs(r.raw)), 240);
        let n: int = (if load_signs(r.raw).mod_file is Some {
            1int
        } else {
            0
        }) + (if load_signs(r.raw).failure is Some {
            1int
        } else {
            0
        });
        assert(d.evidence[n] == line);
    }
}

/// The verdict on loading is about the mod that the loader's message names in brackets.
pub proof fn law_load_verdict_is_about_who_is_named(
    r: ReportView,
    failure: Seq<char>,
    x: Seq<char>,
    j: int,
)
    requires
        field_in(captures_of(FAILURE_MESSAGE@, r.raw), 1) == Some(failure),
        field_in(captures_of(PAREN_ID@, failure), 1) == Some(x),
    ensures
        load_verdict(r) is Some,
        load_verdict(r)->0.confidence == Confidence::High,
        listed_first(r.mods, x, j) ==> load_verdict(r)->0.culprit == Some(
            r.mods[j].id + " "@ + r.mods[j].version,
        ),
        unlisted(r.mods, x) ==> load_verdict(r)->0.culprit == Some(x),
        load_verdict(r)->0.evidence.contains("Forge says: "@ + failure),
{
    crate::laws::blame::law_failed_mod_is_the_one_that_is_named(
        r,
        load_signs(r.raw),
        failure_of(load_error(load_signs(r.raw))),
        x,
        j,
    );
    let d = load_verdict(r)->0;
    let n: int = if load_signs(r.raw).mod_file is Some {
        1
    } else {
        0
    };
    assert(d.evidence[n] == "Forge says: "@ + failure);
}

/// Where the message names no mod, the jar tells which one did not load.
pub proof fn law_failed_mod_by_its_jar(
    r: ReportView,
    signs: LoadView,
    kind: FailureView,
    file: Seq<char>,
    stem: Seq<char>,
    j: int,
)
    requires
        signs.named is None,
        signs.mod_file == Some(file),
        jar_mod(r.mods, file) == Some(stem),
        listed_first(r.mods, stem, j),
    ensures
        load_diagnosis(r, signs, kind).culprit == Some(r.mods[j].id + " "@ + r.mods[j].version),
        load_diagnosis(r, signs, kind).confidence == Confidence::High,
        load_diagnosis(r, signs, kind).evidence[0] == "mod file: "@ + name_of_file(file),
{
    crate::laws::blame::lemma_listed(r.mods, stem, j);
}

/// Whatever the reason, the cause starts with the mod that is blamed.
pub proof fn law_cause_names_who_is_blamed(r: ReportView, signs: LoadView, kind: FailureView)
    ensures
        load_diagnosis(r, signs, kind).culprit is Some,
        ("Mod loading failed: "@ + load_diagnosis(r, signs, kind).culprit->0).is_prefix_of(
            load_diagnosis(r, signs, kind).cause,
        ),
{
    let d = load_diagnosis(r, signs, kind);
    let front = "Mod loading failed: "@ + d.culprit->0;
    assert(front =~= d.cause.subrange(0, front.len() as int));
}

/// A wrong bus is told with the event, and the fix with the event and its interface.
pub proof fn law_wrong_bus_is_told(
    r: ReportView,
    signs: LoadView,
    event: Seq<char>,
    iface: Seq<char>,
)
    ensures
        ({
            let d = load_diagnosis(r, signs, FailureView::WrongBus { event, iface });
            &&& has(d.cause, " listens for "@ + event)
            &&& ("in code: register "@ + event).is_prefix_of(d.fix[0])
            &&& has(d.fix[0], "(interface "@ + iface)
        }),
{
    let d = load_diagnosis(r, signs, FailureView::WrongBus { event, iface });
    let front = "Mod loading failed: "@ + d.culprit->0;
    let rest =
        " on the wrong event bus. That event belongs to the Forge bus, and this listener sits on the mod bus"@;
    assert(d.cause =~= front + (" listens for "@ + event) + rest);
    law_has(front, " listens for "@ + event, rest, d.cause);
    let start = "in code: register "@ + event;
    assert(start =~= d.fix[0].subrange(0, start.len() as int));
    lemma_interface(event, iface, d.fix[0]);
}

/// A duplicate is told as installed twice, and one build of it is to be kept.
pub proof fn law_duplicate_is_told(r: ReportView, signs: LoadView)
    ensures
        ({
            let d = load_diagnosis(r, signs, FailureView::Duplicate);
            &&& d.cause == "Mod loading failed: "@ + d.culprit->0 + " is installed twice"@
            &&& d.fix[1] == "keep only one build of "@ + d.culprit->0
        }),
{
}

/// A dependency is told with the versions of it that will do, where they are given.
pub proof fn law_range_is_told(r: ReportView, signs: LoadView, dep: Seq<char>, v: Seq<char>)
    ensures
        ({
            let some = load_diagnosis(
                r,
                signs,
                FailureView::MissingDependency { dep, range: Some(v) },
            );
            let none = load_diagnosis(r, signs, FailureView::MissingDependency { dep, range: None });
            &&& has(some.cause, " needs "@ + dep + " (version "@ + v)
            &&& ("install "@ + dep + " "@ + v).is_prefix_of(some.fix[0])
            &&& has(none.cause, " needs "@ + dep)
            &&& ("install "@ + dep).is_prefix_of(none.fix[0])
        }),
{
    lemma_range_told(r, signs, dep, v);
    crate::laws::blame::lemma_dependency(r, signs, dep, None);
}

proof fn lemma_range_told(r: ReportView, signs: LoadView, dep: Seq<char>, v: Seq<char>)
    ensures
        ({
            let d = load_diagnosis(r, signs, FailureView::MissingDependency { dep, range: Some(v) });
            has(d.cause, " needs "@ + dep + " (version "@ + v) && ("install "@ + dep + " "@
                + v).is_prefix_of(d.fix[0])
        }),
{
    let d = load_diagnosis(r, signs, FailureView::MissingDependency { dep, range: Some(v) });
    let front = "Mod loading failed: "@ + d.culprit->0;
    let said = " needs "@ + dep + " (version "@ + v;
    let b = ")"@ + " and it is not there"@;
    assert(d.cause =~= front + said + b);
    law_has(front, said, b, d.cause);
    let start = "install "@ + dep + " "@ + v;
    assert(start =~= d.fix[0].subrange(0, start.len() as int));
}

/// A class is told by its name.
pub proof fn law_missing_class_is_told(r: ReportView, signs: LoadView, class: Seq<char>)
    ensures
        has(
            load_diagnosis(r, signs, FailureView::MissingClass(class)).cause,
            " needs the class "@ + class,
        ),
{
    let d = load_diagnosis(r, signs, FailureView::MissingClass(class));
    let front = "Mod loading failed: "@ + d.culprit->0;
    let rest = ", which is not in the modpack"@;
    assert(d.cause =~= front + (" needs the class "@ + class) + rest);
    law_has(front, " needs the class "@ + class, rest, d.cause);
}

/// What no reason explains is told as it is.
pub proof fn law_other_failure_is_told(r: ReportView, signs: LoadView, text: Seq<char>)
    ensures
        text.is_suffix_of(load_diagnosis(r, signs, FailureView::Other(text)).cause),
{
    let d = load_diagnosis(r, signs, FailureView::Other(text));
    assert(text =~= d.cause.subrange(d.cause.len() - text.len(), d.cause.len() as int));
}

proof fn lemma_interface(event: Seq<char>, iface: Seq<char>, line: Seq<char>)
    requires
        line == "in code: register "@ + event
            + " on MinecraftForge.EVENT_BUS instead of the mod bus (interface "@ + iface
            + " means it is a Forge event)"@,
    ensures
        has(line, "(interface "@ + iface),
{
    reveal_strlit(" on MinecraftForge.EVENT_BUS instead of the mod bus (interface ");
    reveal_strlit("(interface ");
    let lit = " on MinecraftForge.EVENT_BUS instead of the mod bus (interface "@;
    let n = lit.len() - "(interface "@.len();
    let a = "in code: register "@ + event + lit.take(n);
    let b = " means it is a Forge event)"@;
    assert(lit =~= lit.take(n) + "(interface "@);
    assert(line =~= a + ("(interface "@ + iface) + b);
    law_has(a, "(interface "@ + iface, b, line);
}

/// The name of a file is what stands behind the last slash of either kind.
pub proof fn law_name_of_a_file(folder: Seq<char>, sep: char, name: Seq<char>)
    requires
        sep == '/' || sep == '\\',
        !name.contains('/'),
        !name.contains('\\'),
    ensures
        name_of_file(folder + seq![sep] + name) == name,
        name_of_file(name) == name,
{
    let set = CharSet::PathSeparator;
    assert(all_in(name, set, false)) by {
        assert forall|k: int| 0 <= k < name.len() implies set.has(#[trigger] name[k]) == false by {
            assert(name.contains(name[k]));
        }
    }
    law_around_a_sign(folder, sep, name, set);
    law_no_sign(name, set);
}

/// The mod of a jar: the longest front of its name, up to a dash, that is the id of a mod.
pub proof fn law_mod_of_a_jar(mods: Seq<ModView>, stem: Seq<char>, tail: Seq<char>, j: int)
    requires
        !tail.contains('-'),
    ensures
        listed_first(mods, stem, j) ==> listed_stem(mods, stem) == Some(stem),
        unlisted(mods, stem + seq!['-'] + tail) ==> listed_stem(mods, stem + seq!['-'] + tail)
            == listed_stem(mods, stem),
        unlisted(mods, tail) ==> listed_stem(mods, tail) is None,
{
    let set = CharSet::Just('-');
    assert(all_in(tail, set, false)) by {
        assert forall|k: int| 0 <= k < tail.len() implies set.has(#[trigger] tail[k]) == false by {
            assert(tail.contains(tail[k]));
        }
    }
    law_around_a_sign(stem, '-', tail, set);
    law_no_sign(tail, set);
    if listed_first(mods, stem, j) {
        crate::laws::blame::lemma_listed(mods, stem, j);
    }
    if unlisted(mods, stem + seq!['-'] + tail) {
        crate::laws::blame::lemma_unlisted(mods, stem + seq!['-'] + tail);
    }
    if unlisted(mods, tail) {
        crate::laws::blame::lemma_unlisted(mods, tail);
    }
}

/// The ending of a jar does not belong to its name, nor does its folder.
pub proof fn law_jar_in_a_folder(
    mods: Seq<ModView>,
    folder: Seq<char>,
    sep: char,
    stem: Seq<char>,
)
    requires
        sep == '/' || sep == '\\',
        !stem.contains('/'),
        !stem.contains('\\'),
        !".jar"@.is_suffix_of(stem),
    ensures
        jar_mod(mods, folder + seq![sep] + (stem + ".jar"@)) == listed_stem(mods, stem),
        jar_mod(mods, stem) == listed_stem(mods, stem),
{
    reveal_strlit(".jar");
    let name = stem + ".jar"@;
    assert(!name.contains('/') && !name.contains('\\')) by {
        assert forall|k: int| 0 <= k < name.len() implies name[k] != '/' && name[k] != '\\' by {
            if k < stem.len() {
                assert(name[k] == stem[k]);
                assert(stem.contains(stem[k]));
            } else {
                assert(name[k] == ".jar"@[k - stem.len()]);
            }
        }
    }
    law_name_of_a_file(folder, sep, name);
    law_name_of_a_file(folder, sep, stem);
    law_suffixes_are_taken_off(stem, ".jar"@);
}

} // verus!

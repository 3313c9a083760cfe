//! What holds of who is blamed.
use vstd::prelude::*;
use crate::model::{
    id_key, mod_frame, mod_owning, mod_with_id, mod_with_namespace, own_frame, platform_class,
    Confidence, DiagnosisView, ExcView, FrameView, ModView, ReportView,
};
use crate::pattern::{captures_of, field_in, group_in};
use crate::rules::fallback::guess;
use crate::rules::mixin::{config_mod, mixin_diagnosis, MixinView};
use crate::rules::mod_load::{
    failure_made, failure_of, load_diagnosis, load_error, FailureSignsView, FailureView, LoadView,
    DUPLICATE_MOD, EVENT_CLASS, MISSING_DEPENDENCY, REQUIRES,
};
use crate::rules::symbol::{missing_diagnosis, SymbolView};
use crate::rules::ticking::{tick_diagnosis, TickView};
use crate::text::{before_first, has, lead, lemma_lead, lowercase, CharSet};

verus! {

/// Whether frame `i` is the first of a class outside the platform that belongs to a mod, and `m`
/// that mod.
pub open spec fn first_frame_of_a_mod(r: ReportView, i: int, m: ModView) -> bool {
    &&& 0 <= i < r.frames.len()
    &&& !platform_class(r.frames[i].class)
    &&& mod_owning(r.mods, r.frames[i].class) == Some(m)
    &&& forall|j: int|
        0 <= j < i ==> platform_class((#[trigger] r.frames[j]).class) || mod_owning(
            r.mods,
            r.frames[j].class,
        ) is None
}

/// Whether no frame of a class outside the platform belongs to a mod.
pub open spec fn no_frame_of_a_mod(r: ReportView) -> bool {
    forall|j: int|
        0 <= j < r.frames.len() ==> platform_class((#[trigger] r.frames[j]).class) || mod_owning(
            r.mods,
            r.frames[j].class,
        ) is None
}

/// Whether mod `j` is the first of the list whose id compares equal to `id`.
pub open spec fn listed_first(mods: Seq<ModView>, id: Seq<char>, j: int) -> bool {
    &&& 0 <= j < mods.len()
    &&& id_key(mods[j].id) == id_key(id)
    &&& forall|k: int| 0 <= k < j ==> id_key((#[trigger] mods[k]).id) != id_key(id)
}

/// Whether no mod of the list has an id that compares equal to `id`.
pub open spec fn unlisted(mods: Seq<ModView>, id: Seq<char>) -> bool {
    forall|k: int| 0 <= k < mods.len() ==> id_key((#[trigger] mods[k]).id) != id_key(id)
}

pub proof fn lemma_mod_frame(frames: Seq<FrameView>, mods: Seq<ModView>, i: int)
    requires
        0 <= i < frames.len(),
        !platform_class(frames[i].class),
        mod_owning(mods, frames[i].class) is Some,
        forall|j: int|
            0 <= j < i ==> platform_class((#[trigger] frames[j]).class) || mod_owning(
                mods,
                frames[j].class,
            ) is None,
    ensures
        mod_frame(frames, mods) == Some(frames[i]),
    decreases frames.len(),
{
    if i > 0 {
        let rest = frames.skip(1);
        assert(platform_class(frames[0].class) || mod_owning(mods, frames[0].class) is None);
        assert(rest[i - 1] == frames[i]);
        assert forall|j: int| 0 <= j < i - 1 implies platform_class((#[trigger] rest[j]).class)
            || mod_owning(mods, rest[j].class) is None by {
            assert(rest[j] == frames[j + 1]);
        }
        lemma_mod_frame(rest, mods, i - 1);
    }
}

pub proof fn lemma_no_mod_frame(frames: Seq<FrameView>, mods: Seq<ModView>)
    requires
        forall|j: int|
            0 <= j < frames.len() ==> platform_class((#[trigger] frames[j]).class) || mod_owning(
                mods,
                frames[j].class,
            ) is None,
    ensures
        mod_frame(frames, mods) is None,
    decreases frames.len(),
{
    if frames.len() > 0 {
        let rest = frames.skip(1);
        assert(platform_class(frames[0].class) || mod_owning(mods, frames[0].class) is None);
        assert forall|j: int| 0 <= j < rest.len() implies platform_class(
            (#[trigger] rest[j]).class,
        ) || mod_owning(mods, rest[j].class) is None by {
            assert(rest[j] == frames[j + 1]);
        }
        lemma_no_mod_frame(rest, mods);
    }
}

pub proof fn lemma_listed(mods: Seq<ModView>, id: Seq<char>, j: int)
    requires
        listed_first(mods, id, j),
    ensures
        mod_with_id(mods, id) == Some(mods[j]),
    decreases mods.len(),
{
    if j > 0 {
        let rest = mods.skip(1);
        assert(id_key(mods[0].id) != id_key(id));
        assert(rest[j - 1] == mods[j]);
        assert forall|k: int| 0 <= k < j - 1 implies id_key((#[trigger] rest[k]).id) != id_key(
            id,
        ) by {
            assert(rest[k] == mods[k + 1]);
        }
        lemma_listed(rest, id, j - 1);
    }
}

pub proof fn lemma_unlisted(mods: Seq<ModView>, id: Seq<char>)
    requires
        unlisted(mods, id),
    ensures
        mod_with_id(mods, id) is None,
    decreases mods.len(),
{
    if mods.len() > 0 {
        let rest = mods.skip(1);
        assert(id_key(mods[0].id) != id_key(id));
        assert forall|k: int| 0 <= k < rest.len() implies id_key((#[trigger] rest[k]).id)
            != id_key(id) by {
            assert(rest[k] == mods[k + 1]);
        }
        lemma_unlisted(rest, id);
    }
}

/// Of something missing, the mod of the first frame of a mod is blamed, by its id and version and
/// with high confidence, whoever owns what is missing.
pub proof fn law_missing_symbol_blames_who_asks(
    r: ReportView,
    exc: ExcView,
    symbol: Option<SymbolView>,
    i: int,
    m: ModView,
)
    requires
        first_frame_of_a_mod(r, i, m),
    ensures
        missing_diagnosis(r, exc, symbol).culprit == Some(m.id + " "@ + m.version),
        missing_diagnosis(r, exc, symbol).confidence == Confidence::High,
{
    lemma_mod_frame(r.frames, r.mods, i);
}

/// Of something missing, its owner is blamed only where no frame belongs to a mod, where it is a
/// mod's and neither the game's nor Forge's; else no one is.
pub proof fn law_missing_symbol_blames_its_owner_last(
    r: ReportView,
    exc: ExcView,
    symbol: Option<SymbolView>,
    j: int,
)
    requires
        no_frame_of_a_mod(r),
    ensures
        missing_diagnosis(r, exc, symbol).confidence == Confidence::Medium,
        symbol is None ==> missing_diagnosis(r, exc, symbol).culprit is None,
        symbol matches Some(s) ==> {
            let platform = "net.minecraft."@.is_prefix_of(s.owner) || "com.mojang."@.is_prefix_of(
                s.owner,
            ) || "net.minecraftforge."@.is_prefix_of(s.owner) || "cpw.mods."@.is_prefix_of(s.owner);
            let owner = mod_owning(r.mods, s.owner);
            &&& (platform || owner is None) ==> missing_diagnosis(r, exc, symbol).culprit is None
            &&& !platform && owner is Some && listed_first(r.mods, owner->0.id, j)
                ==> missing_diagnosis(r, exc, symbol).culprit == Some(
                r.mods[j].id + " "@ + r.mods[j].version,
            )
        },
{
    lemma_no_mod_frame(r.frames, r.mods);
    if let Some(s) = symbol {
        if let Some(owner) = mod_owning(r.mods, s.owner) {
            if listed_first(r.mods, owner.id, j) {
                lemma_listed(r.mods, owner.id, j);
            }
        }
    }
}

/// Where the text says whose mixin failed, the diagnosis is about that mod, whatever configurations
/// and frames there are: it is the culprit, by its entry in the mod list or else by its id, and the
/// cause and the first fix name it.
pub proof fn law_mixin_is_of_the_mod_that_is_named(r: ReportView, m: MixinView, x: Seq<char>, j: int)
    requires
        group_in(m.apply, 1) == Some(x),
    ensures
        listed_first(r.mods, x, j) ==> mixin_diagnosis(r, m).culprit == Some(
            r.mods[j].id + " "@ + r.mods[j].version,
        ) && mixin_diagnosis(r, m).confidence == Confidence::High,
        unlisted(r.mods, x) ==> mixin_diagnosis(r, m).culprit == Some(x) && mixin_diagnosis(
            r,
            m,
        ).confidence == Confidence::Medium,
        ("Mixin apply failed: "@ + x + "'s mixin could not be applied to "@).is_prefix_of(
            mixin_diagnosis(r, m).cause,
        ),
        ("update "@ + x + ": "@).is_prefix_of(mixin_diagnosis(r, m).fix[0]),
{
    lemma_mixin_of(r, m, x, j);
}

/// Where the text does not say whose mixin failed but names a configuration, the diagnosis is about
/// the mod whose name the configuration has.
pub proof fn law_mixin_is_of_the_configuration(
    r: ReportView,
    m: MixinView,
    config: Seq<char>,
    j: int,
)
    requires
        group_in(m.apply, 1) is None,
        group_in(m.config, 1) == Some(config),
    ensures
        listed_first(r.mods, config_mod(config), j) ==> mixin_diagnosis(r, m).culprit == Some(
            r.mods[j].id + " "@ + r.mods[j].version,
        ),
        unlisted(r.mods, config_mod(config)) ==> mixin_diagnosis(r, m).culprit == Some(
            config_mod(config),
        ),
        ("Mixin apply failed: "@ + config_mod(config)
            + "'s mixin could not be applied to "@).is_prefix_of(mixin_diagnosis(r, m).cause),
        ("update "@ + config_mod(config) + ": "@).is_prefix_of(mixin_diagnosis(r, m).fix[0]),
{
    lemma_mixin_of(r, m, config_mod(config), j);
}

/// Frames tell whose mixin failed only where the text neither says so nor names a configuration.
pub proof fn law_mixin_is_of_the_frame_last(r: ReportView, m: MixinView, i: int, owner: ModView, j: int)
    requires
        group_in(m.apply, 1) is None,
        group_in(m.config, 1) is None,
    ensures
        first_frame_of_a_mod(r, i, owner) && listed_first(r.mods, owner.id, j) ==> mixin_diagnosis(
            r,
            m,
        ).culprit == Some(r.mods[j].id + " "@ + r.mods[j].version) && ("Mixin apply failed: "@
            + owner.id + "'s mixin could not be applied to "@).is_prefix_of(
            mixin_diagnosis(r, m).cause,
        ),
        no_frame_of_a_mod(r) ==> mixin_diagnosis(r, m).culprit == Some("an unknown mod"@)
            && mixin_diagnosis(r, m).confidence == Confidence::Medium,
{
    if first_frame_of_a_mod(r, i, owner) && listed_first(r.mods, owner.id, j) {
        lemma_mod_frame(r.frames, r.mods, i);
        lemma_mixin_of(r, m, owner.id, j);
    }
    if no_frame_of_a_mod(r) {
        lemma_no_mod_frame(r.frames, r.mods);
    }
}

proof fn lemma_mixin_of(r: ReportView, m: MixinView, x: Seq<char>, j: int)
    requires
        crate::rules::mixin::mixin_mod(r, m) == Some(x),
    ensures
        listed_first(r.mods, x, j) ==> mixin_diagnosis(r, m).culprit == Some(
            r.mods[j].id + " "@ + r.mods[j].version,
        ) && mixin_diagnosis(r, m).confidence == Confidence::High,
        unlisted(r.mods, x) ==> mixin_diagnosis(r, m).culprit == Some(x) && mixin_diagnosis(
            r,
            m,
        ).confidence == Confidence::Medium,
        ("Mixin apply failed: "@ + x + "'s mixin could not be applied to "@).is_prefix_of(
            mixin_diagnosis(r, m).cause,
        ),
        ("update "@ + x + ": "@).is_prefix_of(mixin_diagnosis(r, m).fix[0]),
{
    if listed_first(r.mods, x, j) {
        lemma_listed(r.mods, x, j);
    }
    if unlisted(r.mods, x) {
        lemma_unlisted(r.mods, x);
    }
    reveal_strlit(": ");
    reveal_strlit(": its mixin went stale against ");
    let d = mixin_diagnosis(r, m);
    let front = "Mixin apply failed: "@ + x + "'s mixin could not be applied to "@;
    assert(front =~= d.cause.subrange(0, front.len() as int));
    let start = "update "@ + x + ": "@;
    assert(start =~= d.fix[0].subrange(0, start.len() as int));
}

/// Whether an error text says that an event is on the wrong bus, and which event.
pub open spec fn on_wrong_bus(s: FailureSignsView) -> bool {
    (has(s.lower, "imodbus"@) || has(s.lower, "not a subtype of the base type"@)) && group_in(
        s.event,
        1,
    ) is Some
}

/// Which of the reasons a failure has: the wrong bus comes before a duplicate, a duplicate before a
/// dependency, a dependency before a requirement, and a requirement before a class, whatever else
/// the text holds. What none of them explains is told as it is, cut off.
pub proof fn law_reasons_of_a_failure(text: Seq<char>, s: FailureSignsView)
    ensures
        failure_made(text, s) is WrongBus <==> on_wrong_bus(s),
        failure_made(text, s) is Duplicate <==> !on_wrong_bus(s) && s.duplicate,
        failure_made(text, s) is MissingDependency <==> !on_wrong_bus(s) && !s.duplicate && (
        group_in(s.dependency, 1) is Some || group_in(s.required, 1) is Some),
        failure_made(text, s) is MissingClass ==> group_in(s.dependency, 1) is None && group_in(
            s.required,
            1,
        ) is None,
        failure_made(text, s) is Other ==> group_in(s.dependency, 1) is None && group_in(
            s.required,
            1,
        ) is None && group_in(s.class, 1) is None,
        failure_made(text, s) matches FailureView::WrongBus { event, iface } ==> group_in(s.event, 1)
            == Some(event) && (field_in(s.iface, 1) is Some ==> field_in(s.iface, 1) == Some(iface)),
        !on_wrong_bus(s) && !s.duplicate && group_in(s.dependency, 1) is None && group_in(
            s.required,
            1,
        ) is None && group_in(s.class, 1) is Some ==> failure_made(text, s)
            == FailureView::MissingClass(group_in(s.class, 1)->0),
{
}

/// A dependency that is named, with the range that is expected, is what a failure is about wherever
/// the text speaks neither of a wrong bus nor of a duplicate; the diagnosis names it in the cause and
/// in the first fix.
pub proof fn law_missing_dependency_is_named(
    r: ReportView,
    signs: LoadView,
    text: Seq<char>,
    s: FailureSignsView,
    x: Seq<char>,
)
    requires
        !on_wrong_bus(s),
        !s.duplicate,
        group_in(s.dependency, 1) == Some(x),
    ensures
        failure_made(text, s) == (FailureView::MissingDependency {
            dep: x,
            range: field_in(s.dependency, 3),
        }),
        has(load_diagnosis(r, signs, failure_made(text, s)).cause, " needs "@ + x),
        ("install "@ + x).is_prefix_of(load_diagnosis(r, signs, failure_made(text, s)).fix[0]),
{
    lemma_dependency(r, signs, x, field_in(s.dependency, 3));
}

/// A mod that is required, and in which versions, is what a failure is about wherever the text
/// speaks neither of a wrong bus nor of a duplicate and gives no dependency of its own.
pub proof fn law_requirement_is_named(
    r: ReportView,
    signs: LoadView,
    text: Seq<char>,
    s: FailureSignsView,
    x: Seq<char>,
)
    requires
        !on_wrong_bus(s),
        !s.duplicate,
        group_in(s.dependency, 1) is None,
        group_in(s.required, 1) == Some(x),
    ensures
        failure_made(text, s) == (FailureView::MissingDependency {
            dep: x,
            range: field_in(s.required, 2),
        }),
        has(load_diagnosis(r, signs, failure_made(text, s)).cause, " needs "@ + x),
        ("install "@ + x).is_prefix_of(load_diagnosis(r, signs, failure_made(text, s)).fix[0]),
{
    lemma_dependency(r, signs, x, field_in(s.required, 2));
}

pub proof fn lemma_dependency(
    r: ReportView,
    signs: LoadView,
    x: Seq<char>,
    range: Option<Seq<char>>,
)
    ensures
        ({
            let d = load_diagnosis(r, signs, FailureView::MissingDependency { dep: x, range });
            has(d.cause, " needs "@ + x) && ("install "@ + x).is_prefix_of(d.fix[0])
        }),
{
    let d = load_diagnosis(r, signs, FailureView::MissingDependency { dep: x, range });
    let blame = d.culprit->0;
    let front = "Mod loading failed: "@ + blame;
    let said = " needs "@ + x;
    assert(d.cause.subrange(front.len() as int, (front.len() + said.len()) as int) =~= said);
    assert(crate::text::at(d.cause, said, front.len() as int));
    let start = "install "@ + x;
    assert(start =~= d.fix[0].subrange(0, start.len() as int));
}

/// What an error text says decides in the same order: where the pattern of a dependency matches, and
/// neither those of a wrong bus nor that of a duplicate, the failure is that dependency.
pub proof fn law_dependency_in_a_text(text: Seq<char>, x: Seq<char>)
    requires
        captures_of(EVENT_CLASS@, text) is None || !(has(lowercase(text), "imodbus"@) || has(
            lowercase(text),
            "not a subtype of the base type"@,
        )),
        captures_of(DUPLICATE_MOD@, text) is None,
        group_in(captures_of(MISSING_DEPENDENCY@, text), 1) == Some(x),
    ensures
        failure_of(text) == (FailureView::MissingDependency {
            dep: x,
            range: field_in(captures_of(MISSING_DEPENDENCY@, text), 3),
        }),
{
}

/// A class is what a text's failure is about only where neither the pattern of a dependency nor that
/// of a requirement matches with a mod.
pub proof fn law_missing_class_in_a_text(text: Seq<char>)
    requires
        failure_of(text) is MissingClass,
    ensures
        group_in(captures_of(MISSING_DEPENDENCY@, text), 1) is None,
        group_in(captures_of(REQUIRES@, text), 1) is None,
        captures_of(DUPLICATE_MOD@, text) is None,
{
}

/// The mod that did not load is the one that the loader's message names, whatever its file; its
/// entry in the list is the culprit, or else its id.
pub proof fn law_failed_mod_is_the_one_that_is_named(
    r: ReportView,
    signs: LoadView,
    kind: FailureView,
    x: Seq<char>,
    j: int,
)
    requires
        signs.named == Some(x),
    ensures
        listed_first(r.mods, x, j) ==> load_diagnosis(r, signs, kind).culprit == Some(
            r.mods[j].id + " "@ + r.mods[j].version,
        ),
        unlisted(r.mods, x) ==> load_diagnosis(r, signs, kind).culprit == Some(x),
        load_diagnosis(r, signs, kind).confidence == Confidence::High,
{
    if listed_first(r.mods, x, j) {
        lemma_listed(r.mods, x, j);
    }
    if unlisted(r.mods, x) {
        lemma_unlisted(r.mods, x);
    }
}

/// Where neither the loader's message nor a file tells which mod did not load, none is known, and
/// confidence is not high.
pub proof fn law_failed_mod_unknown(r: ReportView, signs: LoadView, kind: FailureView)
    requires
        signs.named is None,
        signs.mod_file is None,
    ensures
        load_diagnosis(r, signs, kind).culprit == Some("a mod"@),
        load_diagnosis(r, signs, kind).confidence == Confidence::Medium,
{
}

/// The error that is told is the exception's message, whatever else there is; else the line below
/// the loader's message; else that message.
pub proof fn law_error_that_is_told(signs: LoadView, x: Seq<char>)
    ensures
        signs.exception == Some(x) ==> load_error(signs) == x,
        signs.exception is None && signs.detail == Some(x) ==> load_error(signs) == x,
        signs.exception is None && signs.detail is None && signs.failure == Some(x) ==> load_error(
            signs,
        ) == x,
{
}

/// The type of what was ticked: an entity's, else that of a block's name, else a block's.
pub open spec fn type_read(t: TickView, id: Seq<char>) -> bool {
    ||| group_in(t.entity, 1) == Some(id)
    ||| group_in(t.entity, 1) is None && group_in(t.block_name, 1) == Some(id)
    ||| group_in(t.entity, 1) is None && group_in(t.block_name, 1) is None && group_in(
        t.block_type,
        1,
    ) == Some(id)
}

/// The class of what was ticked: an entity's, else that of a block's name, else a block's.
pub open spec fn class_read(t: TickView, class: Seq<char>) -> bool {
    ||| group_in(t.entity, 2) == Some(class)
    ||| group_in(t.entity, 2) is None && group_in(t.block_name, 2) == Some(class)
    ||| group_in(t.entity, 2) is None && group_in(t.block_name, 2) is None && group_in(
        t.block_type,
        2,
    ) == Some(class)
}

/// Whether `ns` is what stands before the first colon of `id`, or all of it.
pub open spec fn namespace_is(id: Seq<char>, ns: Seq<char>) -> bool {
    &&& !ns.contains(':')
    &&& id == ns || (ns + seq![':']).is_prefix_of(id)
}

pub proof fn lemma_namespace(id: Seq<char>, ns: Seq<char>)
    requires
        namespace_is(id, ns),
    ensures
        before_first(id, CharSet::Just(':')) == ns,
{
    let set = CharSet::Just(':');
    lemma_lead(id, set, false);
    let n = lead(id, set, false) as int;
    if id != ns {
        assert(id.subrange(0, (ns.len() + 1) as int)[ns.len() as int] == (ns + seq![':'])[ns.len() as int]);
        assert(id[ns.len() as int] == ':');
        assert forall|k: int| 0 <= k < ns.len() implies id[k] == ns[k] by {
            assert(id.subrange(0, (ns.len() + 1) as int)[k] == (ns + seq![':'])[k]);
        }
    }
    if n < ns.len() {
        assert(id[n] == ns[n]);
        assert(ns.contains(ns[n]));
    }
    if n > ns.len() {
        assert(id[ns.len() as int] == ':');
    }
    assert(id.take(n) =~= ns);
}

/// The mod of a registry id is the first of the list whose id compares equal to what stands before
/// the first colon.
pub proof fn law_mod_of_a_namespace(mods: Seq<ModView>, id: Seq<char>, ns: Seq<char>, j: int)
    requires
        namespace_is(id, ns),
    ensures
        listed_first(mods, ns, j) ==> mod_with_namespace(mods, id) == Some(mods[j]),
        unlisted(mods, ns) ==> mod_with_namespace(mods, id) is None,
{
    lemma_namespace(id, ns);
    if listed_first(mods, ns, j) {
        lemma_listed(mods, ns, j);
    }
    if unlisted(mods, ns) {
        lemma_unlisted(mods, ns);
    }
}

/// What a tick diagnosis says of a mod that it blames.
pub open spec fn tick_blames(d: DiagnosisView, m: ModView) -> bool {
    &&& d.culprit == Some(m.id + " "@ + m.version)
    &&& d.confidence == Confidence::High
    &&& d.fix.len() == 3
    &&& ("this is "@ + m.id + "'s bug: "@).is_prefix_of(d.fix[0])
    &&& ("try another build of "@ + m.id + " "@).is_prefix_of(d.fix[2])
}

proof fn lemma_tick_blames(r: ReportView, t: TickView, m: ModView)
    requires
        crate::rules::ticking::ticked_mod(r, t) == Some(m),
    ensures
        tick_blames(tick_diagnosis(r, t), m),
{
    reveal_strlit("'s bug: ");
    reveal_strlit("'s bug: report it with this crash report attached");
    reveal_strlit(" ");
    reveal_strlit(" (the previous one usually works)");
    let d = tick_diagnosis(r, t);
    let a = "this is "@ + m.id + "'s bug: "@;
    let b = "try another build of "@ + m.id + " "@;
    assert(a =~= d.fix[0].subrange(0, a.len() as int));
    assert(b =~= d.fix[2].subrange(0, b.len() as int));
}

/// Where the type of what was ticked is given and its namespace is the id of a mod of the list, that
/// mod is blamed, whatever frames there are.
pub proof fn law_tick_blames_the_namespace(
    r: ReportView,
    t: TickView,
    id: Seq<char>,
    ns: Seq<char>,
    j: int,
)
    requires
        type_read(t, id),
        namespace_is(id, ns),
        listed_first(r.mods, ns, j),
    ensures
        tick_blames(tick_diagnosis(r, t), r.mods[j]),
{
    law_mod_of_a_namespace(r.mods, id, ns, j);
    lemma_tick_blames(r, t, r.mods[j]);
}

/// Where the type does not lead to a mod but the class of what was ticked does, that mod is blamed,
/// whatever frames there are.
pub proof fn law_tick_blames_the_class(
    r: ReportView,
    t: TickView,
    id: Seq<char>,
    ns: Seq<char>,
    class: Seq<char>,
    m: ModView,
)
    requires
        (type_read(t, id) && namespace_is(id, ns) && unlisted(r.mods, ns)) || (group_in(
            t.entity,
            1,
        ) is None && group_in(t.block_name, 1) is None && group_in(t.block_type, 1) is None),
        class_read(t, class),
        mod_owning(r.mods, class) == Some(m),
    ensures
        tick_blames(tick_diagnosis(r, t), m),
{
    if type_read(t, id) && namespace_is(id, ns) && unlisted(r.mods, ns) {
        law_mod_of_a_namespace(r.mods, id, ns, 0);
    }
    lemma_tick_blames(r, t, m);
}

/// Frames count only where neither the type nor the class of what was ticked leads to a mod. Where
/// they do not either, the type itself is named, with less confidence.
pub proof fn law_tick_blames_the_frame_last(
    r: ReportView,
    t: TickView,
    id: Seq<char>,
    ns: Seq<char>,
    class: Seq<char>,
    i: int,
    m: ModView,
)
    requires
        type_read(t, id),
        namespace_is(id, ns),
        unlisted(r.mods, ns),
        class_read(t, class) && mod_owning(r.mods, class) is None || (group_in(t.entity, 2) is None
            && group_in(t.block_name, 2) is None && group_in(t.block_type, 2) is None),
    ensures
        first_frame_of_a_mod(r, i, m) ==> tick_blames(tick_diagnosis(r, t), m),
        no_frame_of_a_mod(r) ==> tick_diagnosis(r, t).culprit == Some(id + " (mod not identified)"@)
            && tick_diagnosis(r, t).confidence == Confidence::Medium,
{
    law_mod_of_a_namespace(r.mods, id, ns, 0);
    if first_frame_of_a_mod(r, i, m) {
        lemma_mod_frame(r.frames, r.mods, i);
        lemma_tick_blames(r, t, m);
    }
    if no_frame_of_a_mod(r) {
        lemma_no_mod_frame(r.frames, r.mods);
    }
}

/// A guess blames the owner of the first frame outside the platform, and no one else: not the owner
/// of a later frame.
pub proof fn law_guess_blames_the_first_own_frame(r: ReportView, i: int)
    requires
        0 <= i < r.frames.len(),
        !platform_class(r.frames[i].class),
        forall|j: int| 0 <= j < i ==> platform_class((#[trigger] r.frames[j]).class),
    ensures
        match mod_owning(r.mods, r.frames[i].class) {
            Some(m) => guess(r).culprit == Some(m.id + " "@ + m.version + " (unconfirmed)"@),
            None => guess(r).culprit is None,
        },
{
    lemma_own_frame(r.frames, i);
}

/// A guess blames no one where every frame is of the platform.
pub proof fn law_guess_blames_no_one(r: ReportView)
    requires
        forall|j: int|
            0 <= j < r.frames.len() ==> platform_class((#[trigger] r.frames[j]).class),
    ensures
        guess(r).culprit is None,
{
    lemma_no_own_frame(r.frames);
}

pub proof fn lemma_own_frame(frames: Seq<FrameView>, i: int)
    requires
        0 <= i < frames.len(),
        !platform_class(frames[i].class),
        forall|j: int| 0 <= j < i ==> platform_class((#[trigger] frames[j]).class),
    ensures
        own_frame(frames) == Some(frames[i]),
    decreases frames.len(),
{
    if i > 0 {
        let rest = frames.skip(1);
        assert(platform_class(frames[0].class));
        assert(rest[i - 1] == frames[i]);
        assert forall|j: int| 0 <= j < i - 1 implies platform_class((#[trigger] rest[j]).class) by {
            assert(rest[j] == frames[j + 1]);
        }
        lemma_own_frame(rest, i - 1);
    }
}

proof fn lemma_no_own_frame(frames: Seq<FrameView>)
    requires
        forall|j: int| 0 <= j < frames.len() ==> platform_class((#[trigger] frames[j]).class),
    ensures
        own_frame(frames) is None,
    decreases frames.len(),
{
    if frames.len() > 0 {
        let rest = frames.skip(1);
        assert(platform_class(frames[0].class));
        assert forall|j: int| 0 <= j < rest.len() implies platform_class(
            (#[trigger] rest[j]).class,
        ) by {
            assert(rest[j] == frames[j + 1]);
        }
        lemma_no_own_frame(rest);
    }
}

} // verus!

//! What holds of the details of a diagnosis.
use vstd::prelude::*;
use crate::laws::blame::{
    class_read, first_frame_of_a_mod, lemma_listed, lemma_mod_frame, listed_first, type_read,
};
use crate::laws::symbols::{of_forge, of_the_game};
use crate::laws::wording::{all_in, law_cut_at_the_first, law_trimmed_at_both_ends, lemma_trailing};
use crate::model::{
    exc_simple, exc_text, frame_site, loader_label, mod_owning, root_cause_of, section_named,
    ExcView, ModView, ReportView,
};
use crate::number::decimal;
use crate::pattern::group_in;
use crate::report::entry_body;
use crate::rules::common::jar_advice;
use crate::rules::fallback::{frame_lines, guess, own_sites};
use crate::rules::mixin::{mixin_diagnosis, mixin_exc, MixinView};
use crate::rules::mod_load::{load_diagnosis, FailureView, LoadView};
use crate::rules::registry::{
    collected, collected_below, line_with, lines_below, missing_in, registry_diagnosis, MissingView,
};
use crate::rules::symbol::{missing_diagnosis, symbol_text, SymbolView};
use crate::rules::ticking::{block_position, tick_diagnosis, TickView};
use crate::text::{
    ascii_lowered, cut_at, has, joined, lines_of, trimmed, truncated, CharSet,
};

verus! {

/// What is counted of things that are there.
pub open spec fn one_if(b: bool) -> int {
    if b {
        1
    } else {
        0
    }
}

/// Whether what was ticked is a block.
pub open spec fn is_block(r: ReportView, t: TickView) -> bool {
    section_named(r.sections, "Block entity being ticked"@) is Some || t.block_type is Some
}

/// What was ticked is told first: whether it is a block or an entity, with its type and its class
/// where they can be read.
pub proof fn law_ticked_is_told_first(r: ReportView, t: TickView, id: Seq<char>, class: Seq<char>)
    requires
        type_read(t, id),
    ensures
        ({
            let d = tick_diagnosis(r, t);
            let what = if is_block(r, t) {
                "block entity"@
            } else {
                "entity"@
            };
            &&& d.cause == "Exception ticking "@ + what + ": "@ + id + " blows up in its tick"@
            &&& class_read(t, class) ==> d.evidence[0] == what + ": "@ + id + " ("@ + class + ")"@
            &&& group_in(t.entity, 2) is None && group_in(t.block_name, 2) is None && group_in(
                t.block_type,
                2,
            ) is None ==> d.evidence[0] == what + ": "@ + id
        }),
{
}

/// The place, the root cause and the frame of the mod follow, as far as they are known.
pub proof fn law_tick_evidence(r: ReportView, t: TickView, i: int, m: ModView)
    requires
        first_frame_of_a_mod(r, i, m),
    ensures
        ({
            let d = tick_diagnosis(r, t);
            let exact = group_in(t.exact, 1);
            let block = block_position(t);
            let n = 1 + one_if(exact is Some || block is Some);
            &&& exact is Some && block is Some ==> d.evidence[1] == "position: "@ + exact->0
                + " (block: "@ + block->0 + ")"@
            &&& exact is Some && block is None ==> d.evidence[1] == "position: "@ + exact->0
            &&& exact is None && block is Some ==> d.evidence[1] == "position (block): "@ + block->0
            &&& root_cause_of(r.exceptions) matches Some(e) ==> d.evidence[n] == "exception: "@
                + truncated(exc_text(e), 200)
            &&& d.evidence[n + one_if(root_cause_of(r.exceptions) is Some)] == "mod frame: "@
                + frame_site(r.frames[i]) + " (stacktrace line "@ + decimal(r.frames[i].index)
                + ")"@
            &&& ("if you are a dev, open "@ + frame_site(r.frames[i])).is_prefix_of(d.dev_tip[0])
        }),
{
    lemma_mod_frame(r.frames, r.mods, i);
    let d = tick_diagnosis(r, t);
    let a = "if you are a dev, open "@ + frame_site(r.frames[i]);
    assert(d.dev_tip[0] =~= a + ": that is the line that throws"@);
    assert(a =~= d.dev_tip[0].subrange(0, a.len() as int));
}

/// An entity is killed by its type near the place where it was.
pub proof fn law_killing_an_entity(r: ReportView, t: TickView, id: Seq<char>, pos: Seq<char>)
    requires
        !is_block(r, t),
        type_read(t, id),
        group_in(t.exact, 1) == Some(pos),
    ensures
        tick_diagnosis(r, t).fix[1]
            == "to get back in: kill the entity near that spot with /kill @e[type="@ + id
            + ",distance=64] (it was at "@ + pos + ")"@,
{
}

/// The evidence on a mixin: the configuration, the mixin with its target, and the injection with the
/// targets that it matched.
pub proof fn law_mixin_evidence(r: ReportView, m: MixinView)
    ensures
        ({
            let e = mixin_diagnosis(r, m).evidence;
            let a = one_if(group_in(m.config, 1) is Some);
            let arrow = group_in(m.arrow, 1) is Some && group_in(m.arrow, 2) is Some;
            let hook = group_in(m.hook, 1) is Some && group_in(m.hook, 2) is Some;
            let check = group_in(m.check, 1) is Some && group_in(m.check, 2) is Some;
            let b = a + one_if(arrow);
            &&& group_in(m.config, 1) matches Some(c) ==> e[0] == "mixin config: "@ + c
            &&& arrow ==> e[a] == "mixin: "@ + group_in(m.arrow, 1)->0 + " -> "@ + group_in(
                m.arrow,
                2,
            )->0
            &&& hook && !check ==> e[b] == "injection: @"@ + group_in(m.hook, 1)->0 + " on "@
                + group_in(m.hook, 2)->0 + "()"@
            &&& hook && check ==> ("injection: @"@ + group_in(m.hook, 1)->0 + " on "@ + group_in(
                m.hook,
                2,
            )->0 + "() matched "@ + group_in(m.check, 1)->0 + "/"@ + group_in(
                m.check,
                2,
            )->0).is_prefix_of(e[b])
        }),
{
    let e = mixin_diagnosis(r, m).evidence;
    let a = one_if(group_in(m.config, 1) is Some);
    let arrow = group_in(m.arrow, 1) is Some && group_in(m.arrow, 2) is Some;
    let b = a + one_if(arrow);
    if group_in(m.hook, 1) is Some && group_in(m.hook, 2) is Some && group_in(m.check, 1) is Some
        && group_in(m.check, 2) is Some {
        let x = "injection: @"@ + group_in(m.hook, 1)->0 + " on "@ + group_in(m.hook, 2)->0
            + "() matched "@ + group_in(m.check, 1)->0 + "/"@ + group_in(m.check, 2)->0;
        assert(e[b] =~= x + " targets"@);
        assert(x =~= e[b].subrange(0, x.len() as int));
    }
}

/// The error of a mixin: the one that the text gives behind the mod, whatever exceptions there are;
/// else that of the mixin library's exception; else the root cause.
pub proof fn law_mixin_error(r: ReportView, m: MixinView)
    ensures
        ({
            let e = mixin_diagnosis(r, m).evidence;
            let n = one_if(group_in(m.config, 1) is Some) + one_if(
                group_in(m.arrow, 1) is Some && group_in(m.arrow, 2) is Some,
            ) + one_if(group_in(m.hook, 1) is Some && group_in(m.hook, 2) is Some);
            let by_library = mixin_exc(r.exceptions);
            &&& group_in(m.apply, 2) matches Some(rest) ==> e[n] == "error: "@ + truncated(
                trimmed(rest),
                220,
            )
            &&& group_in(m.apply, 2) is None ==> (by_library matches Some(x) ==> e[n] == "error: "@
                + truncated(exc_text(x), 220))
            &&& group_in(m.apply, 2) is None && by_library is None ==> (root_cause_of(
                r.exceptions,
            ) matches Some(x) ==> e[n] == "error: "@ + truncated(exc_text(x), 220))
        }),
{
}

/// The tips on a mixin name the target and the mixin, and say that the target is another mod's where
/// it is not the game's.
pub proof fn law_mixin_tips(r: ReportView, m: MixinView, mixin: Seq<char>, target: Seq<char>)
    requires
        group_in(m.arrow, 1) == Some(mixin),
        group_in(m.arrow, 2) == Some(target),
    ensures
        ("if you are a dev, decompile "@ + target + " and read the method "@ + mixin).is_prefix_of(
            mixin_diagnosis(r, m).dev_tip[0],
        ),
        "net.minecraft."@.is_prefix_of(target) ==> mixin_diagnosis(r, m).dev_tip.len() == 2,
        !"net.minecraft."@.is_prefix_of(target) ==> mixin_diagnosis(r, m).dev_tip.len() == 3 && (
        "the target "@ + target + " is not vanilla"@).is_prefix_of(mixin_diagnosis(r, m).dev_tip[2]),
{
    let t = mixin_diagnosis(r, m).dev_tip;
    let a = "if you are a dev, decompile "@ + target + " and read the method "@ + mixin;
    assert(a =~= t[0].subrange(0, a.len() as int));
    if !"net.minecraft."@.is_prefix_of(target) {
        lemma_not_vanilla(target, t[2]);
    }
}

proof fn lemma_not_vanilla(target: Seq<char>, line: Seq<char>)
    requires
        line == "the target "@ + target
            + " is not vanilla, so another mod moved that method: pin the version of that mod, and tell its author if the API changed"@,
    ensures
        ("the target "@ + target + " is not vanilla"@).is_prefix_of(line),
{
    reveal_strlit(" is not vanilla");
    reveal_strlit(
        " is not vanilla, so another mod moved that method: pin the version of that mod, and tell its author if the API changed",
    );
    let a = "the target "@ + target + " is not vanilla"@;
    assert(a =~= line.subrange(0, a.len() as int));
}

/// A class that a mod of the list owns is got by installing that mod; for any other the class is
/// named.
pub proof fn law_getting_a_class(r: ReportView, signs: LoadView, class: Seq<char>)
    ensures
        ({
            let d = load_diagnosis(r, signs, FailureView::MissingClass(class));
            &&& mod_owning(r.mods, class) matches Some(m) ==> d.fix[0] == "install "@ + (m.id + " "@
                + m.version) + ": "@ + d.culprit->0 + " needs "@ + class + " and it is not loaded"@
            &&& mod_owning(r.mods, class) is None ==> (
            "install the mod or library that ships "@ + class).is_prefix_of(d.fix[0])
            &&& ("if you are a dev, the class "@ + class).is_prefix_of(d.dev_tip[0])
        }),
{
    let d = load_diagnosis(r, signs, FailureView::MissingClass(class));
    let a = "install the mod or library that ships "@ + class;
    if mod_owning(r.mods, class) is None {
        assert(a =~= d.fix[0].subrange(0, a.len() as int));
    }
    let b = "if you are a dev, the class "@ + class;
    assert(b =~= d.dev_tip[0].subrange(0, b.len() as int));
}

/// The address for issues is given unless the mod says, in any case of the letters, that it has
/// none.
pub proof fn law_address_for_issues(r: ReportView, signs: LoadView, kind: FailureView, url: Seq<char>)
    requires
        signs.url == Some(url),
    ensures
        ({
            let n = one_if(signs.mod_file is Some) + one_if(signs.failure is Some) + 1;
            let e = load_diagnosis(r, signs, kind).evidence;
            ascii_lowered(url) != "not provided"@ ==> e[n] == "mod issue URL: "@ + url
        }),
        ascii_lowered(url) == "not provided"@ ==> load_diagnosis(r, signs, kind).evidence
            == load_diagnosis(r, LoadView { url: None, ..signs }, kind).evidence,
{
}

/// The evidence on registries: the line of the marker, then the ids with their number, then the mods
/// that register them.
pub proof fn law_registry_evidence(r: ReportView, marker: Seq<char>, m: MissingView)
    ensures
        ({
            let e = registry_diagnosis(r, marker, m).evidence;
            let line = line_with(lines_of(r.raw), marker);
            let a = one_if(line is Some);
            let b = a + one_if(m.ids.len() > 0);
            &&& line matches Some(x) ==> e[0] == "report line: "@ + trimmed(x)
            &&& m.ids.len() > 0 ==> ("missing IDs ("@ + decimal(m.ids.len()) + "): "@).is_prefix_of(
                e[a],
            )
            &&& m.mods.len() > 0 ==> e[b] == "mods that register them: "@ + joined(m.mods, ", "@)
            &&& e.len() == b + one_if(m.mods.len() > 0) + 1
        }),
{
    let e = registry_diagnosis(r, marker, m).evidence;
    let a = one_if(line_with(lines_of(r.raw), marker) is Some);
    if m.ids.len() > 0 {
        let x = "missing IDs ("@ + decimal(m.ids.len()) + "): "@;
        assert(x =~= e[a].subrange(0, x.len() as int));
    }
}

/// The marker's line is the first that holds it.
pub proof fn law_first_line_with_the_marker(all: Seq<Seq<char>>, marker: Seq<char>, i: int)
    requires
        0 <= i < all.len(),
        forall|k: int| 0 <= k < i ==> !(has(#[trigger] all[k], marker)),
    ensures
        has(all[i], marker) ==> line_with(all, marker) == Some(all[i]),
        !(has(all[i], marker)) && i == all.len() - 1 ==> line_with(all, marker) is None,
    decreases all.len(),
{
    let rest = all.skip(1);
    if i > 0 {
        assert(!(has(all[0], marker)));
        assert(rest[i - 1] == all[i]);
        assert forall|k: int| 0 <= k < i - 1 implies !(has(#[trigger] rest[k], marker)) by {
            assert(rest[k] == all[k + 1]);
        }
        law_first_line_with_the_marker(rest, marker, i - 1);
    } else if all.len() == 1 {
        assert(rest.len() == 0);
        assert(line_with(rest, marker) is None);
    }
}

/// White space around an entry and commas at its end do not belong to it.
pub proof fn law_commas_at_the_end(a: Seq<char>, t: Seq<char>, commas: Seq<char>, b: Seq<char>)
    requires
        all_in(a, CharSet::White, true),
        all_in(b, CharSet::White, true),
        all_in(commas, CharSet::Just(','), true),
        t.len() > 0,
        !CharSet::White.has(t[0]),
        !CharSet::White.has(t.last()),
        t.last() != ',',
    ensures
        entry_body(a + (t + commas) + b) == t,
{
    let none = Seq::<char>::empty();
    let body = t + commas;
    assert(body[0] == t[0]);
    if commas.len() > 0 {
        assert(CharSet::Just(',').has(commas[commas.len() - 1]));
        assert(body.last() == ',');
    } else {
        assert(body =~= t);
    }
    law_trimmed_at_both_ends(a, body, b, CharSet::White, true);
    lemma_trailing(t, commas, CharSet::Just(','), true);
    assert(body.take(body.len() - commas.len()) =~= t);
    law_trimmed_at_both_ends(none, t, none, CharSet::White, true);
    assert(none + t + none =~= t);
}

/// A guess shows five frames at most, with their numbers where they are of a mod, and tells the first
/// exception before the environment.
pub proof fn law_guess_shows_frames(r: ReportView, k: int)
    ensures
        ({
            let own = own_sites(r.frames);
            let lines = frame_lines(r.frames);
            let n = if own.len() == 0 {
                r.frames.len()
            } else {
                own.len()
            };
            &&& lines.len() == 1 + (if n > 5 {
                5
            } else {
                n
            })
            &&& 0 <= k < lines.len() - 1 && own.len() > 0 ==> lines[k + 1] == "  "@ + frame_site(
                own[k],
            ) + " (stacktrace line "@ + decimal(own[k].index) + ")"@
            &&& 0 <= k < lines.len() - 1 && own.len() == 0 ==> lines[k + 1] == "  "@ + frame_site(
                r.frames[k],
            )
        }),
        r.exceptions.len() > 0 ==> guess(r).evidence[guess(r).evidence.len() - 2] == "exception: "@
            + exc_text(r.exceptions[0]),
        r.frames.len() == 0 ==> guess(r).evidence.contains(
            "this report has no readable stacktrace (truncated?)"@,
        ),
{
    if r.frames.len() == 0 {
        let e = guess(r).evidence;
        let n = e.len() - 2 - one_if(r.exceptions.len() > 0);
        assert(e[n] == "this report has no readable stacktrace (truncated?)"@);
    }
}

/// What is missing is looked for behind the first marker: in the rest of its line, and in the lines
/// below.
pub proof fn law_missing_behind_the_marker(raw: Seq<char>, marker: Seq<char>)
    ensures
        !(has(raw, marker)) ==> missing_in(raw, marker).ids.len() == 0 && missing_in(
            raw,
            marker,
        ).mods.len() == 0,
        cut_at(raw, marker) matches Some((before, after)) ==> {
            let all = lines_of(after);
            let none = MissingView { ids: Seq::empty(), mods: Seq::empty() };
            all.len() > 0 ==> missing_in(raw, marker) == collected_below(
                collected(none, marker + all[0], true),
                lines_below(all),
            )
        },
{
    law_cut_at_the_first(raw, marker);
}

/// The mod that has what is missing is to be installed, by its entry in the list.
pub proof fn law_installing_the_owner(
    r: ReportView,
    exc: ExcView,
    s: SymbolView,
    owner: ModView,
    j: int,
)
    requires
        !of_forge(s.owner),
        !of_the_game(s.owner),
        mod_owning(r.mods, s.owner) == Some(owner),
        listed_first(r.mods, owner.id, j),
    ensures
        missing_diagnosis(r, exc, Some(s)).fix[0] == "install "@ + (r.mods[j].id + " "@
            + r.mods[j].version) + " on both client and server"@,
{
    lemma_listed(r.mods, owner.id, j);
}

/// The tip on something missing is to read the call of it at the frame of the mod.
pub proof fn law_reading_the_call(r: ReportView, exc: ExcView, s: SymbolView, i: int, m: ModView)
    requires
        first_frame_of_a_mod(r, i, m),
    ensures
        missing_diagnosis(r, exc, Some(s)).dev_tip[0] == "if you are a dev, open "@ + frame_site(
            r.frames[i],
        ) + " and read the call to "@ + symbol_text(s) + ": that symbol is not in this classpath"@,
        missing_diagnosis(r, exc, None).dev_tip[0] == "if you are a dev, open "@ + frame_site(
            r.frames[i],
        ) + " and read the call that fails"@,
        jar_advice(Some(r.frames[i])) matches Some(line) ==> missing_diagnosis(
            r,
            exc,
            Some(s),
        ).dev_tip.last() == line,
{
    lemma_mod_frame(r.frames, r.mods, i);
}

/// What is said where no one knows whose the missing thing is: a class is another mod's to provide,
/// and anything else was built against another version.
pub proof fn law_missing_of_no_one(r: ReportView, exc: ExcView, s: SymbolView, i: int, m: ModView)
    requires
        !of_forge(s.owner),
        !of_the_game(s.owner),
        mod_owning(r.mods, s.owner) is None,
        first_frame_of_a_mod(r, i, m),
    ensures
        ({
            let d = missing_diagnosis(r, exc, Some(s));
            let who = m.id + " "@ + m.version;
            let class = exc_simple(exc) == "NoClassDefFoundError"@ || exc_simple(exc)
                == "ClassNotFoundException"@;
            &&& class ==> d.cause == exc_simple(exc)
                + ": a class is missing from the classpath, and "@ + who
                + " expects another mod to provide it"@
            &&& !class ==> d.cause == exc_simple(exc)
                + ": a symbol is missing from the classpath. "@ + who
                + " was compiled against another "@ + loader_label(r.loader)
                + "/Minecraft version"@
        }),
{
    lemma_mod_frame(r.frames, r.mods, i);
}

} // verus!

//! What holds of the advice on memory, ticks, registries and what no rule knows.
use vstd::prelude::*;
use crate::laws::blame::{
    law_tick_blames_the_namespace, listed_first, namespace_is, tick_blames, unlisted,
};
use crate::laws::wording::{all_in, law_around_a_sign, law_has};
use crate::model::{
    count_mods, env_text, exc_is, exc_text, exception_named, frame_site, id_key, loader_label,
    mod_detail, mod_owning, platform_class, section_holding, section_named, Confidence, ExcView,
    FrameView, Loader, ModView, ReportView, SectionView,
};
use crate::number::decimal;
use crate::pattern::{captures_of, group, group_in};
use crate::rules::common::{jar_advice, platform_jar, previewed, with_entry_and_env};
use crate::rules::fallback::{frame_lines, guess, own_sites};
use crate::rules::oom::{heap_next, oom_diagnosis, oom_verdict};
use crate::rules::registry::{
    collected, collected_below, entry_text, id_text, lacking_side, lines_below, missing_in,
    named_mod, owners_of_ids, registry_culprits, registry_diagnosis, registry_verdict, role_of,
    with_ids, with_mods, with_named, MissingView,
};
use crate::rules::ticking::{block_position, tick_diagnosis, tick_verdict, TickView, ENTITY_TYPE};
use crate::text::{cut_at, has, joined, lowercase, text_or, trimmed, CharSet};

verus! {

proof fn lemma_starts_with(a: Seq<char>, s: Seq<char>, b: Seq<char>)
    requires
        s == a + b,
    ensures
        a.is_prefix_of(s),
{
    assert(a =~= s.subrange(0, a.len() as int));
}

/// Nothing is said of memory without an exception that says it ran out.
pub proof fn law_no_memory_verdict(r: ReportView)
    requires
        forall|i: int|
            0 <= i < r.exceptions.len() ==> !exc_is(#[trigger] r.exceptions[i], "OutOfMemoryError"@),
    ensures
        oom_verdict(r) is None,
{
    lemma_none_named(r.exceptions, "OutOfMemoryError"@);
}

proof fn lemma_none_named(excs: Seq<ExcView>, name: Seq<char>)
    requires
        forall|i: int| 0 <= i < excs.len() ==> !exc_is(#[trigger] excs[i], name),
    ensures
        exception_named(excs, name) is None,
    decreases excs.len(),
{
    if excs.len() > 0 {
        let rest = excs.skip(1);
        assert(!exc_is(excs[0], name));
        assert forall|i: int| 0 <= i < rest.len() implies !exc_is(#[trigger] rest[i], name) by {
            assert(rest[i] == excs[i + 1]);
        }
        lemma_none_named(rest, name);
    }
}

/// What is advised on memory depends on the space that ran out. For class metadata the heap is left
/// alone, whatever it is. For the heap, one below 6144 megabytes is raised from what it is, and a
/// larger one makes a leak likely.
pub proof fn law_advice_on_memory(r: ReportView, exc: ExcView, lower: Seq<char>)
    ensures
        ({
            let d = oom_diagnosis(r, exc, lower);
            let metaspace = has(lower, "metaspace"@) || has(lower, "compressed class"@);
            let now: u32 = match r.xmx_mb {
                Some(n) => n,
                None => 2048,
            };
            &&& d.confidence == Confidence::High
            &&& d.culprit == Some("no mod: the JVM ran out of memory"@)
            &&& d.evidence[0] == "exception: "@ + exc_text(exc)
            &&& metaspace ==> "raise the class metadata space: "@.is_prefix_of(d.fix[0])
            &&& !metaspace && now < 6144 ==> ("raise -Xmx from "@ + decimal(now as nat) + "M to "@
                + decimal(heap_next(now) as nat) + "M"@).is_prefix_of(d.fix[0])
            &&& !metaspace && now >= 6144 ==> ("you already had "@ + decimal(now as nat)
                + "M of heap"@).is_prefix_of(d.fix[0])
            &&& r.xmx_mb is None ==> d.evidence.last() == "no -Xmx in the JVM Flags"@
            &&& r.xmx_mb matches Some(n) ==> d.evidence.last() == "-Xmx now: "@ + decimal(n as nat)
                + " MB (from JVM Flags)"@
            &&& r.memory_line matches Some(line) ==> d.evidence[1] == "memory at crash: "@ + line
            &&& d.evidence.len() == 2 + (if r.memory_line is Some {
                1int
            } else {
                0
            }) + (if count_mods(r.mods) > 0 {
                1int
            } else {
                0
            })
        }),
{
    let d = oom_diagnosis(r, exc, lower);
    let now: u32 = match r.xmx_mb {
        Some(n) => n,
        None => 2048,
    };
    let metaspace = has(lower, "metaspace"@) || has(lower, "compressed class"@);
    if metaspace {
        lemma_metaspace_front();
    } else if now < 6144 {
        lemma_raise_front();
        let a = "raise -Xmx from "@ + decimal(now as nat) + "M to "@ + decimal(
            heap_next(now) as nat,
        ) + "M"@;
        let long = "M (launcher -> Installations -> Edit -> JVM arguments)"@;
        assert(d.fix[0] =~= a + long.skip(1));
        lemma_starts_with(a, d.fix[0], long.skip(1));
    } else {
        lemma_leak_front();
        let a = "you already had "@ + decimal(now as nat) + "M of heap"@;
        let long =
            "M of heap: hunt the leak (a mod holding chunks or entities) instead of raising it"@;
        assert(d.fix[0] =~= a + long.skip(9));
        lemma_starts_with(a, d.fix[0], long.skip(9));
    }
}

proof fn lemma_metaspace_front()
    ensures
        "raise the class metadata space: "@.is_prefix_of(
            "raise the class metadata space: -XX:MaxMetaspaceSize=1024m (or drop mods)"@,
        ),
{
    reveal_strlit("raise the class metadata space: ");
    reveal_strlit("raise the class metadata space: -XX:MaxMetaspaceSize=1024m (or drop mods)");
    let long = "raise the class metadata space: -XX:MaxMetaspaceSize=1024m (or drop mods)"@;
    assert("raise the class metadata space: "@ =~= long.subrange(0, 32));
}

proof fn lemma_raise_front()
    ensures
        "M"@ + "M (launcher -> Installations -> Edit -> JVM arguments)"@.skip(1)
            == "M (launcher -> Installations -> Edit -> JVM arguments)"@,
{
    reveal_strlit("M");
    reveal_strlit("M (launcher -> Installations -> Edit -> JVM arguments)");
    let long = "M (launcher -> Installations -> Edit -> JVM arguments)"@;
    assert("M"@ + long.skip(1) =~= long);
}

proof fn lemma_leak_front()
    ensures
        "M of heap"@
            + "M of heap: hunt the leak (a mod holding chunks or entities) instead of raising it"@.skip(
            9,
        ) == "M of heap: hunt the leak (a mod holding chunks or entities) instead of raising it"@,
{
    reveal_strlit("M of heap");
    reveal_strlit(
        "M of heap: hunt the leak (a mod holding chunks or entities) instead of raising it",
    );
    let long = "M of heap: hunt the leak (a mod holding chunks or entities) instead of raising it"@;
    assert("M of heap"@ + long.skip(9) =~= long);
}

/// The heap that is advised: 4096 megabytes for a smaller one, 8192 for one smaller than that, and
/// 4096 more for any other, as far as that can be told.
pub proof fn law_steps_of_the_heap(now: u32)
    ensures
        now < 4096 ==> heap_next(now) == 4096,
        4096 <= now < 8192 ==> heap_next(now) == 8192,
        8192 <= now && now + 4096 <= u32::MAX ==> heap_next(now) == now + 4096,
        now + 4096 > u32::MAX ==> heap_next(now) == u32::MAX,
{
}

/// A list in words shows the first items, and how many more there are.
pub proof fn law_list_in_words(items: Seq<Seq<char>>, max: nat)
    ensures
        items.len() <= max ==> previewed(items, max) == joined(items, ", "@),
        items.len() > max ==> previewed(items, max) == joined(items.take(max as int), ", "@)
            + " and "@ + decimal((items.len() - max) as nat) + " more"@,
{
}

/// Where the jar of a frame is known and not the platform's, the advice is to decompile it, by its
/// name; else there is none.
pub proof fn law_advice_on_a_jar(f: FrameView, jar: Seq<char>)
    ensures
        jar_advice(None) is None,
        f.jar is None ==> jar_advice(Some(f)) is None,
        f.jar == Some(jar) && platform_jar(jar) ==> jar_advice(Some(f)) is None,
        f.jar == Some(jar) && !platform_jar(jar) ==> jar_advice(Some(f)) is Some && has(
            jar_advice(Some(f))->0,
            jar,
        ),
{
    if f.jar == Some(jar) && !platform_jar(jar) {
        let line = jar_advice(Some(f))->0;
        let a = "to read that class: java -jar vineflower.jar -dgs=1 "@;
        let b =
            " out/ (Vineflower, or FernFlower), or Ctrl+click the class in IntelliJ with the Minecraft Development plugin"@;
        law_has(a, jar, b, line);
    }
}

/// Which jars are the platform's: those whose names, in lower case, hold one of these anywhere.
pub proof fn law_jars_of_the_platform(name: Seq<char>, t: Seq<char>)
    ensures
        has(lowercase(name), t) && (t == "client-"@ || t == "server-"@ || t == "forge-"@ || t
            == "-srg"@ || t == "authlib"@ || t == "eventbus"@ || t == "modlauncher"@ || t
            == "javafml"@ || t == "bootstraplauncher"@ || t == "mixin-"@ || t == "asm-"@ || t
            == "lwjgl"@) ==> platform_jar(name),
        platform_jar(name) ==> lowercase(name).len() >= 4,
{
    if platform_jar(name) {
        let lower = lowercase(name);
        lemma_holds(lower, "client-"@);
        lemma_holds(lower, "server-"@);
        lemma_holds(lower, "forge-"@);
        lemma_holds(lower, "-srg"@);
        lemma_holds(lower, "authlib"@);
        lemma_holds(lower, "eventbus"@);
        lemma_holds(lower, "modlauncher"@);
        lemma_holds(lower, "javafml"@);
        lemma_holds(lower, "bootstraplauncher"@);
        lemma_holds(lower, "mixin-"@);
        lemma_holds(lower, "asm-"@);
        lemma_holds(lower, "lwjgl"@);
        reveal_strlit("client-");
        reveal_strlit("server-");
        reveal_strlit("forge-");
        reveal_strlit("-srg");
        reveal_strlit("authlib");
        reveal_strlit("eventbus");
        reveal_strlit("modlauncher");
        reveal_strlit("javafml");
        reveal_strlit("bootstraplauncher");
        reveal_strlit("mixin-");
        reveal_strlit("asm-");
        reveal_strlit("lwjgl");
    }
}

proof fn lemma_holds(s: Seq<char>, t: Seq<char>)
    ensures
        has(s, t) ==> s.len() >= t.len(),
{
}

/// A section is found by a part of its name, in any case of the letters, and the first counts.
pub proof fn law_first_section_counts(sections: Seq<SectionView>, part: Seq<char>, i: int)
    requires
        0 <= i < sections.len(),
        forall|k: int|
            0 <= k < i ==> !(has(lowercase((#[trigger] sections[k]).name), lowercase(part))),
    ensures
        has(lowercase(sections[i].name), lowercase(part)) ==> section_named(sections, part) == Some(
            sections[i],
        ),
        !(has(lowercase(sections[i].name), lowercase(part))) && i == sections.len() - 1
            ==> section_named(sections, part) is None,
    decreases sections.len(),
{
    let rest = sections.skip(1);
    let names = crate::model::lowered_names(sections);
    assert(names.skip(1) =~= crate::model::lowered_names(rest));
    assert(names[0] == lowercase(sections[0].name));
    if i > 0 {
        assert(!(has(lowercase(sections[0].name), lowercase(part))));
        assert(rest[i - 1] == sections[i]);
        assert forall|k: int| 0 <= k < i - 1 implies !(has(
            lowercase((#[trigger] rest[k]).name),
            lowercase(part),
        )) by {
            assert(rest[k] == sections[k + 1]);
        }
        law_first_section_counts(rest, part, i - 1);
    } else if sections.len() == 1 {
        assert(rest.len() == 0);
        assert(section_holding(rest, names.skip(1), lowercase(part)) is None);
    }
}

/// A tick failed exactly where the description, a section or the text says so.
pub proof fn law_when_a_tick_failed(r: ReportView)
    ensures
        tick_verdict(r) is Some <==> {
            ||| has(lowercase(text_or(r.description, ""@)), "ticking"@)
            ||| section_named(r.sections, "Entity being ticked"@) is Some
            ||| section_named(r.sections, "Block entity being ticked"@) is Some
            ||| has(r.raw, "Exception ticking entity"@)
            ||| has(r.raw, "Exception ticking block entity"@)
        },
{
}

/// The verdict on a tick blames the mod of the type's namespace, whatever frames there are.
pub proof fn law_tick_verdict_blames_the_namespace(
    r: ReportView,
    id: Seq<char>,
    ns: Seq<char>,
    j: int,
)
    requires
        has(r.raw, "Exception ticking entity"@),
        group_in(captures_of(ENTITY_TYPE@, r.raw), 1) == Some(id),
        namespace_is(id, ns),
        listed_first(r.mods, ns, j),
    ensures
        tick_verdict(r) is Some,
        tick_blames(tick_verdict(r)->0, r.mods[j]),
{
    law_tick_blames_the_namespace(r, crate::rules::ticking::tick_signs(r.raw), id, ns, j);
}

/// What was ticked is a block where a section or the text speaks of a block, and else an entity; the
/// way back in is by the block's place or by the entity's.
pub proof fn law_way_back_in(r: ReportView, t: TickView)
    ensures
        ({
            let d = tick_diagnosis(r, t);
            let block = section_named(r.sections, "Block entity being ticked"@) is Some
                || t.block_type is Some;
            let place = block_position(t);
            &&& block ==> (place matches Some(p) ==> (
            "to get back in: break that block with /setblock "@ + p + " air"@).is_prefix_of(
                d.fix[1],
            ))
            &&& block && place is None ==> d.fix[1]
                == "to get back in: find that mod's block and remove it from the world"@
            &&& !block && group_in(t.exact, 1) is Some
                ==> "to get back in: kill the entity near that spot with /kill @e[type="@.is_prefix_of(
                d.fix[1],
            )
        }),
{
    let d = tick_diagnosis(r, t);
    let block = section_named(r.sections, "Block entity being ticked"@) is Some || t.block_type is Some;
    if block {
        if let Some(p) = block_position(t) {
            lemma_air_front();
            let a = "to get back in: break that block with /setblock "@ + p + " air"@;
            let long = " air (or mine it in creative)"@;
            assert(d.fix[1] =~= a + long.skip(4));
            lemma_starts_with(a, d.fix[1], long.skip(4));
        }
    } else if group_in(t.exact, 1) is Some {
        let a = "to get back in: kill the entity near that spot with /kill @e[type="@;
        assert(a =~= d.fix[1].subrange(0, a.len() as int));
    }
}

proof fn lemma_air_front()
    ensures
        " air"@ + " air (or mine it in creative)"@.skip(4) == " air (or mine it in creative)"@,
{
    reveal_strlit(" air");
    reveal_strlit(" air (or mine it in creative)");
    let long = " air (or mine it in creative)"@;
    assert(" air"@ + long.skip(4) =~= long);
}

/// The place of a block is its three coordinates with commas between them, and is not known unless
/// all three are.
pub proof fn law_place_of_a_block(t: TickView)
    ensures
        block_position(t) is Some <==> group_in(t.block, 1) is Some && group_in(t.block, 2) is Some
            && group_in(t.block, 3) is Some,
        block_position(t) matches Some(p) ==> p == group_in(t.block, 1)->0 + seq![','] + group_in(
            t.block,
            2,
        )->0 + seq![','] + group_in(t.block, 3)->0,
{
    reveal_strlit(",");
    assert(","@ =~= seq![',']);
}

/// Registries differ exactly where the text says that entries are missing or that they could not be
/// synchronized; the first of these is where the entries are looked for.
pub proof fn law_when_registries_differ(r: ReportView)
    ensures
        registry_verdict(r) is Some <==> has(r.raw, "Missing registry entries"@) || has(
            r.raw,
            "Failed to synchronize registry data"@,
        ),
        has(r.raw, "Missing registry entries"@) ==> registry_verdict(r) == Some(
            registry_diagnosis(
                r,
                "Missing registry entries"@,
                missing_in(r.raw, "Missing registry entries"@),
            ),
        ),
        !(has(r.raw, "Missing registry entries"@)) && has(
            r.raw,
            "Failed to synchronize registry data"@,
        ) ==> registry_verdict(r) == Some(
            registry_diagnosis(
                r,
                "Failed to synchronize registry data"@,
                missing_in(r.raw, "Failed to synchronize registry data"@),
            ),
        ),
{
}

/// What comes from the server is missing on the client, and the other way round.
pub proof fn law_which_side_lacks(raw: Seq<char>)
    ensures
        has(raw, "from server"@) || has(raw, "from the server"@) ==> lacking_side(raw)
            == "the client"@,
        !(has(raw, "from server"@)) && !(has(raw, "from the server"@)) && (has(raw, "from client"@)
            || has(raw, "from the client"@)) ==> lacking_side(raw) == "the server"@,
        !(has(raw, "from server"@)) && !(has(raw, "from the server"@)) && !(has(
            raw,
            "from client"@,
        )) && !(has(raw, "from the client"@)) ==> lacking_side(raw)
            == "one of the two sides (client or server)"@,
{
}

/// How a mod is told that something is missing of: by its entry in the list, or by its id.
pub open spec fn told(mods: Seq<ModView>, id: Seq<char>, name: Seq<char>) -> bool {
    ||| exists|j: int|
        listed_first(mods, id, j) && name == (#[trigger] mods[j]).id + " "@ + mods[j].version
    ||| unlisted(mods, id) && name == id + " (not in this report's mod list)"@
}

proof fn lemma_told(mods: Seq<ModView>, id: Seq<char>)
    ensures
        told(mods, id, named_mod(mods, id)),
    decreases mods.len(),
{
    lemma_first_or_none(mods, id);
    if unlisted(mods, id) {
        crate::laws::blame::lemma_unlisted(mods, id);
    } else {
        let j = choose|j: int| listed_first(mods, id, j);
        crate::laws::blame::lemma_listed(mods, id, j);
        assert(listed_first(mods, id, j) && named_mod(mods, id) == mods[j].id + " "@
            + mods[j].version);
    }
}

proof fn lemma_first_or_none(mods: Seq<ModView>, id: Seq<char>)
    ensures
        unlisted(mods, id) || exists|j: int| listed_first(mods, id, j),
    decreases mods.len(),
{
    if mods.len() > 0 {
        let less = mods.drop_last();
        lemma_first_or_none(less, id);
        let n = mods.len() - 1;
        assert forall|k: int| 0 <= k < n implies #[trigger] less[k] == mods[k] by {}
        if unlisted(less, id) {
            assert forall|k: int| 0 <= k < n implies id_key((#[trigger] mods[k]).id) != id_key(id) by {
                assert(less[k] == mods[k]);
            }
            if id_key(mods[n].id) == id_key(id) {
                assert(listed_first(mods, id, n));
            } else {
                assert(unlisted(mods, id));
            }
        } else {
            let j = choose|j: int| listed_first(less, id, j);
            assert(less[j] == mods[j]);
            assert forall|k: int| 0 <= k < j implies id_key((#[trigger] mods[k]).id) != id_key(
                id,
            ) by {
                assert(less[k] == mods[k]);
            }
            assert(listed_first(mods, id, j));
        }
    }
}

proof fn lemma_kept<A>(list: Seq<A>, x: A, y: A)
    ensures
        list.contains(x) ==> list.push(y).contains(x),
        list.push(y).contains(y),
{
    let longer = list.push(y);
    assert(longer[longer.len() - 1] == y);
    if list.contains(x) {
        let i = choose|i: int| 0 <= i < list.len() && list[i] == x;
        assert(longer[i] == x);
    }
}

proof fn lemma_owner_of_an_id(mods: Seq<ModView>, ids: Seq<Seq<char>>, k: int, ns: Seq<char>)
    requires
        0 <= k < ids.len(),
        crate::rules::registry::namespace_of(ids[k]) == ns,
        ns != "minecraft"@,
    ensures
        owners_of_ids(mods, ids).contains(named_mod(mods, ns)),
    decreases ids.len(),
{
    let less = ids.drop_last();
    let before = owners_of_ids(mods, less);
    let last = crate::rules::registry::namespace_of(ids.last());
    if k < ids.len() - 1 {
        assert(less[k] == ids[k]);
        lemma_owner_of_an_id(mods, less, k, ns);
        lemma_kept(before, named_mod(mods, ns), named_mod(mods, last));
    } else {
        lemma_kept(before, named_mod(mods, ns), named_mod(mods, ns));
    }
}

proof fn lemma_named_kept(list: Seq<Seq<char>>, mods: Seq<ModView>, ids: Seq<Seq<char>>, x: Seq<char>)
    requires
        list.contains(x) || exists|k: int|
            0 <= k < ids.len() && x == named_mod(mods, #[trigger] ids[k]),
    ensures
        with_named(list, mods, ids).contains(x),
    decreases ids.len(),
{
    if ids.len() > 0 {
        let less = ids.drop_last();
        let before = with_named(list, mods, less);
        let last = named_mod(mods, ids.last());
        lemma_kept(before, x, last);
        lemma_kept(before, last, last);
        if list.contains(x) {
            lemma_named_kept(list, mods, less, x);
        } else {
            let k = choose|k: int| 0 <= k < ids.len() && x == named_mod(mods, #[trigger] ids[k]);
            if k < ids.len() - 1 {
                assert(less[k] == ids[k]);
                lemma_named_kept(list, mods, less, x);
            } else {
                assert(x == last);
            }
        }
    }
}

/// Every mod that something is missing of is blamed: those of the namespaces other than the game's,
/// and those that are named.
pub proof fn law_registry_blames_all(
    r: ReportView,
    marker: Seq<char>,
    m: MissingView,
    k: int,
    ns: Seq<char>,
)
    requires
        (0 <= k < m.ids.len() && namespace_is(m.ids[k], ns) && ns != "minecraft"@) || (0 <= k
            < m.mods.len() && m.mods[k] == ns),
    ensures
        exists|name: Seq<char>|
            told(r.mods, ns, name) && #[trigger] registry_culprits(r, m).contains(name),
        registry_diagnosis(r, marker, m).culprit == Some(joined(registry_culprits(r, m), ", "@)),
        registry_diagnosis(r, marker, m).confidence == Confidence::High,
{
    let name = named_mod(r.mods, ns);
    lemma_told(r.mods, ns);
    let owners = owners_of_ids(r.mods, m.ids);
    if 0 <= k < m.ids.len() && namespace_is(m.ids[k], ns) && ns != "minecraft"@ {
        crate::laws::blame::lemma_namespace(m.ids[k], ns);
        lemma_owner_of_an_id(r.mods, m.ids, k, ns);
    } else {
        assert(name == named_mod(r.mods, m.mods[k]));
    }
    lemma_named_kept(owners, r.mods, m.mods, name);
    assert(registry_culprits(r, m).contains(name));
}

proof fn lemma_owners_are_told(mods: Seq<ModView>, ids: Seq<Seq<char>>, c: int)
    requires
        0 <= c < owners_of_ids(mods, ids).len(),
    ensures
        exists|k: int|
            0 <= k < ids.len() && owners_of_ids(mods, ids)[c] == named_mod(
                mods,
                crate::rules::registry::namespace_of(#[trigger] ids[k]),
            ) && crate::rules::registry::namespace_of(ids[k]) != "minecraft"@,
    decreases ids.len(),
{
    let less = ids.drop_last();
    let before = owners_of_ids(mods, less);
    let n = ids.len() - 1;
    if c < before.len() {
        lemma_owners_are_told(mods, less, c);
        let k = choose|k: int|
            0 <= k < less.len() && before[c] == named_mod(
                mods,
                crate::rules::registry::namespace_of(#[trigger] less[k]),
            ) && crate::rules::registry::namespace_of(less[k]) != "minecraft"@;
        assert(ids[k] == less[k]);
    } else {
        assert(ids[n] == ids.last());
    }
}

/// No one is blamed without an id or a mod that is missing, nor for the game's ids alone.
pub proof fn law_registry_blames_no_one_else(r: ReportView, marker: Seq<char>, m: MissingView)
    requires
        m.mods.len() == 0,
        forall|k: int|
            0 <= k < m.ids.len() ==> namespace_is(#[trigger] m.ids[k], "minecraft"@),
    ensures
        registry_diagnosis(r, marker, m).culprit is None,
        m.ids.len() == 0 ==> registry_diagnosis(r, marker, m).confidence == Confidence::Medium,
{
    let owners = owners_of_ids(r.mods, m.ids);
    if owners.len() > 0 {
        lemma_owners_are_told(r.mods, m.ids, 0);
        let k = choose|k: int|
            0 <= k < m.ids.len() && owners[0] == named_mod(
                r.mods,
                crate::rules::registry::namespace_of(#[trigger] m.ids[k]),
            ) && crate::rules::registry::namespace_of(m.ids[k]) != "minecraft"@;
        crate::laws::blame::lemma_namespace(m.ids[k], "minecraft"@);
    }
    assert(with_named(owners, r.mods, m.mods) == owners);
}

/// What is missing is told with the side that lacks it, and the first fix is to install it there.
pub proof fn law_registry_is_told(r: ReportView, marker: Seq<char>, m: MissingView)
    ensures
        ({
            let d = registry_diagnosis(r, marker, m);
            let side = lacking_side(r.raw);
            &&& has(d.cause, side + " is missing "@)
            &&& m.mods.len() > 0 ==> d.fix[0] == "install "@ + joined(m.mods, ", "@) + " on "@ + side
            &&& m.mods.len() == 0 && m.ids.len() > 0 ==> d.fix[0] == "install on "@ + side
                + " the mod that registers those IDs"@
            &&& d.fix.len() == (if m.mods.len() > 0 || m.ids.len() > 0 {
                3int
            } else {
                2
            })
            &&& m.ids.len() > 0 ==> previewed(m.ids, 8).is_suffix_of(d.cause)
        }),
{
    let d = registry_diagnosis(r, marker, m);
    let side = lacking_side(r.raw);
    let front =
        "Missing registry entries: the client and the server are not running the same mods, and "@;
    let what = if m.ids.len() == 0 {
        "the registry entries the other side never registered"@
    } else {
        previewed(m.ids, 8)
    };
    assert(d.cause =~= front + (side + " is missing "@) + what);
    law_has(front, side + " is missing "@, what, d.cause);
    assert(what =~= d.cause.subrange(d.cause.len() - what.len(), d.cause.len() as int));
}

/// Where the list of entries ends: at a call, a rule or dots, and at a blank line once an id was
/// found. Blank lines before that are passed over.
pub proof fn law_end_of_the_entries(line: Seq<char>, found: bool)
    ensures
        "at "@.is_prefix_of(line) || "--"@.is_prefix_of(line) || "..."@.is_prefix_of(line)
            ==> role_of(line, found) is Stop,
        line.len() == 0 && found ==> role_of(line, found) is Stop,
        line.len() == 0 && !found ==> role_of(line, found) is Skip,
        line.len() > 0 && !"at "@.is_prefix_of(line) && !"--"@.is_prefix_of(line)
            && !"..."@.is_prefix_of(line) ==> role_of(line, found) is Read,
{
    reveal_strlit("at ");
    reveal_strlit("--");
    reveal_strlit("...");
}

/// Entries are looked for in the forty lines below the marker's, and no further.
pub proof fn law_lines_that_are_searched(all: Seq<Seq<char>>, i: int)
    ensures
        lines_below(all).len() <= 40,
        lines_below(all).len() == (if all.len() == 0 {
            0int
        } else if all.len() - 1 <= 40 {
            all.len() - 1
        } else {
            40
        }),
        0 <= i < lines_below(all).len() ==> lines_below(all)[i] == all[i + 1],
{
}

/// What is read of the lines below: a line that ends the list keeps what was found, one that is
/// passed over changes nothing, and any other adds what it holds.
pub proof fn law_entries_line_by_line(m: MissingView, line: Seq<char>, rest: Seq<Seq<char>>)
    ensures
        ({
            let below = seq![line] + rest;
            let t = trimmed(line);
            let ends = "at "@.is_prefix_of(t) || "--"@.is_prefix_of(t) || "..."@.is_prefix_of(t) || (
            t.len() == 0 && m.ids.len() > 0);
            &&& ends ==> collected_below(m, below) == m
            &&& !ends && t.len() == 0 ==> collected_below(m, below) == collected_below(m, rest)
            &&& !ends && t.len() > 0 ==> collected_below(m, below) == collected_below(
                collected(m, t, false),
                rest,
            )
        }),
{
    let below = seq![line] + rest;
    assert(below[0] == line);
    assert(below.skip(1) =~= rest);
    law_end_of_the_entries(trimmed(line), m.ids.len() > 0);
}

/// Where an entry's ids stand: behind the arrow, where there is one, and before a bracket. On the
/// marker's own line they stand behind the word `entries`.
pub proof fn law_where_ids_stand(a: Seq<char>, b: Seq<char>, c: Seq<char>)
    requires
        !b.contains('('),
    ensures
        cut_at(a, "->"@) matches Some((x, rhs)) ==> (rhs == b + seq!['('] + c ==> id_text(a) == b),
        cut_at(a, "->"@) is None && a == b + seq!['('] + c ==> id_text(a) == b,
        entry_text(a, false) == a,
        cut_at(a, "entries"@) matches Some((x, rest)) ==> entry_text(a, true) == rest,
        cut_at(a, "entries"@) is None ==> entry_text(a, true) == a,
{
    let set = CharSet::Just('(');
    assert(all_in(b, set, false)) by {
        assert forall|k: int| 0 <= k < b.len() implies set.has(#[trigger] b[k]) == false by {
            assert(b.contains(b[k]));
        }
    }
    law_around_a_sign(b, '(', c, set);
}

/// A line adds the ids and the mods that it matches, each once, behind those that are there.
pub proof fn law_ids_of_a_line(
    list: Seq<Seq<char>>,
    found: Seq<Seq<Option<Seq<char>>>>,
    g: Seq<Option<Seq<char>>>,
    ns: Seq<char>,
    path: Seq<char>,
)
    requires
        group(g, 1) == Some(ns),
        group(g, 2) == Some(path),
    ensures
        ({
            let id = ns + seq![':'] + path;
            let before = with_ids(list, found);
            &&& before.contains(id) ==> with_ids(list, found.push(g)) == before
            &&& !before.contains(id) ==> with_ids(list, found.push(g)) == before.push(id)
            &&& with_mods(list, found).contains(ns) ==> with_mods(list, found.push(g)) == with_mods(
                list,
                found,
            )
            &&& !with_mods(list, found).contains(ns) ==> with_mods(list, found.push(g))
                == with_mods(list, found).push(ns)
        }),
{
    reveal_strlit(":");
    assert(":"@ =~= seq![':']);
    assert(found.push(g).drop_last() =~= found);
    assert(found.push(g).last() == g);
}

/// A guess is never confident. With an owner it tells the class and the mod, and without one the
/// exception; it ends with the environment.
pub proof fn law_guess_is_told(r: ReportView, i: int, m: ModView)
    ensures
        guess(r).confidence == Confidence::Low,
        guess(r).evidence.last() == "environment: "@ + env_text(r),
        0 <= i < r.frames.len() && !platform_class(r.frames[i].class) && (forall|j: int|
            0 <= j < i ==> platform_class((#[trigger] r.frames[j]).class)) && mod_owning(
            r.mods,
            r.frames[i].class,
        ) == Some(m) ==> (r.frames[i].class + " belongs to "@ + m.id).is_suffix_of(guess(r).cause)
            && guess(r).evidence[0] == "mod entry: "@ + mod_detail(m) && guess(r).fix.len() == 3,
{
    if 0 <= i < r.frames.len() && !platform_class(r.frames[i].class) && (forall|j: int|
        0 <= j < i ==> platform_class((#[trigger] r.frames[j]).class)) && mod_owning(
        r.mods,
        r.frames[i].class,
    ) == Some(m) {
        crate::laws::blame::lemma_own_frame(r.frames, i);
        let cause = guess(r).cause;
        let end = r.frames[i].class + " belongs to "@ + m.id;
        assert(end =~= cause.subrange(cause.len() - end.len(), cause.len() as int));
    }
}

/// The frames that are shown are those outside the platform, each place once, in their order; where
/// there are none, the first frames are shown.
pub proof fn law_frames_that_are_shown(frames: Seq<FrameView>, f: FrameView)
    ensures
        platform_class(f.class) ==> own_sites(frames.push(f)) == own_sites(frames),
        !platform_class(f.class) && (exists|k: int|
            0 <= k < own_sites(frames).len() && frame_site(#[trigger] own_sites(frames)[k])
                == frame_site(f)) ==> own_sites(frames.push(f)) == own_sites(frames),
        !platform_class(f.class) && !(exists|k: int|
            0 <= k < own_sites(frames).len() && frame_site(#[trigger] own_sites(frames)[k])
                == frame_site(f)) ==> own_sites(frames.push(f)) == own_sites(frames).push(f),
        own_sites(frames).len() == 0 ==> frame_lines(frames)[0] == "first frames of the stacktrace:"@,
        own_sites(frames).len() > 0 ==> frame_lines(frames)[0]
            == "first frames that are not Minecraft/Forge (the mod is usually there):"@,
{
    assert(frames.push(f).drop_last() =~= frames);
    assert(frames.push(f).last() == f);
    let own = own_sites(frames);
    let places = crate::rules::fallback::sites(own);
    if exists|k: int| 0 <= k < own.len() && frame_site(#[trigger] own[k]) == frame_site(f) {
        let k = choose|k: int| 0 <= k < own.len() && frame_site(#[trigger] own[k]) == frame_site(f);
        assert(places[k] == frame_site(f));
        assert(places.contains(frame_site(f)));
    } else if places.contains(frame_site(f)) {
        let k = choose|k: int| 0 <= k < places.len() && places[k] == frame_site(f);
        assert(frame_site(own[k]) == frame_site(f));
    }
}

/// The place of a frame, with the file and the line where they are known.
pub proof fn law_place_of_a_frame(f: FrameView)
    ensures
        f.location is None ==> frame_site(f) == f.class + seq!['.'] + f.method + seq!['(', ')'],
        f.location matches Some(loc) ==> frame_site(f) == f.class + seq!['.'] + f.method + seq!['(']
            + loc + seq![')'],
{
    reveal_strlit(".");
    reveal_strlit("(");
    reveal_strlit(")");
    reveal_strlit("()");
    assert("."@ =~= seq!['.']);
    assert("("@ =~= seq!['(']);
    assert(")"@ =~= seq![')']);
    assert("()"@ =~= seq!['(', ')']);
}

/// The environment: the loader with its version, then the game, then Java, as far as they are known.
pub proof fn law_environment(r: ReportView, v: Seq<char>, mc: Seq<char>, java: Seq<char>)
    ensures
        ({
            let loader = if r.loader == Loader::Unknown {
                "unknown loader"@
            } else if r.loader_version == Some(v) {
                loader_label(r.loader) + " "@ + v
            } else {
                loader_label(r.loader) + " (version unknown)"@
            };
            (r.loader_version == Some(v) || r.loader_version is None) ==> {
                &&& r.mc_version is None && r.java_version is None ==> env_text(r) == loader
                &&& r.mc_version == Some(mc) && r.java_version is None ==> env_text(r) == loader
                    + " · "@ + ("Minecraft "@ + mc)
                &&& r.mc_version is None && r.java_version == Some(java) ==> env_text(r) == loader
                    + " · "@ + ("Java "@ + java)
                &&& r.mc_version == Some(mc) && r.java_version == Some(java) ==> env_text(r)
                    == loader + " · "@ + ("Minecraft "@ + mc) + " · "@ + ("Java "@ + java)
            }
        }),
{
    let parts = crate::model::env_parts(r);
    if parts.len() >= 2 {
        let less = parts.drop_last();
        if less.len() == 2 {
            assert(less.drop_last().len() == 1);
            assert(joined(less.drop_last(), " · "@) == parts[0]);
        }
        assert(less[0] == parts[0]);
        assert(joined(less, " · "@) == if less.len() == 1 {
            less[0]
        } else {
            joined(less.drop_last(), " · "@) + " · "@ + less.last()
        });
    }
}

/// A mod's entry: its id and version, with its name in brackets, and the file behind that where one
/// is given.
pub proof fn law_entry_of_a_mod(m: ModView)
    ensures
        (m.id + " "@ + m.version).is_prefix_of(mod_detail(m)),
        m.file is None ==> mod_detail(m) == m.id + " "@ + m.version + " ("@ + m.name + ")"@,
        m.file matches Some(f) ==> (f.len() > 0 ==> (f + ")"@).is_suffix_of(mod_detail(m))),
{
    let t = mod_detail(m);
    let a = m.id + " "@ + m.version;
    reveal_strlit("");
    assert(a =~= t.subrange(0, a.len() as int));
    if let Some(f) = m.file {
        if f.len() > 0 {
            let b = f + ")"@;
            assert(b =~= t.subrange(t.len() - b.len(), t.len() as int));
        }
    }
}

/// A diagnosis that names a mod's entry gives it before the environment, which comes last.
pub proof fn law_entry_before_environment(lines: Seq<Seq<char>>, entry: Option<ModView>, r: ReportView)
    ensures
        with_entry_and_env(lines, entry, r).last() == "environment: "@ + env_text(r),
        entry is None ==> with_entry_and_env(lines, entry, r).len() == lines.len() + 1,
        entry matches Some(m) ==> with_entry_and_env(lines, entry, r).len() == lines.len() + 2
            && with_entry_and_env(lines, entry, r)[lines.len() as int] == "mod entry: "@
            + mod_detail(m),
        lines.is_prefix_of(with_entry_and_env(lines, entry, r)),
{
    let all = with_entry_and_env(lines, entry, r);
    assert(lines =~= all.subrange(0, lines.len() as int));
}

} // verus!

//! What holds of code that asks for something that is not there.
use vstd::prelude::*;
use crate::laws::blame::{
    first_frame_of_a_mod, law_missing_symbol_blames_its_owner_last,
    law_missing_symbol_blames_who_asks, no_frame_of_a_mod,
};
use crate::laws::wording::{all_in, law_around_a_sign, law_no_sign, law_trimmed_at_both_ends};
use crate::model::{
    exc_is, exc_simple, exc_text, frame_site, loader_label, mod_frame, mod_owning, Confidence,
    ExcView, ModView, ReportView,
};
use crate::number::decimal;
use crate::pattern::{captures_of, group_in};
use crate::rules::symbol::{
    last_dotted, missing_class_made, missing_diagnosis, missing_exc, missing_verdict, owner_of,
    symbol_made, symbol_missing, symbol_text, unquoted, OwnerView, SymbolView, MISSING_CLASS,
    SYMBOL_CALL, SYMBOL_FIELD,
};
use crate::text::{trim_of, truncated, words, CharSet};

verus! {

/// The simple name of an exception is what stands behind the last dot, and an exception goes by that
/// name and by its full one.
pub proof fn law_names_of_an_exception(e: ExcView, package: Seq<char>, name: Seq<char>)
    requires
        !name.contains('.'),
    ensures
        e.fqcn == package + seq!['.'] + name ==> exc_simple(e) == name && exc_is(e, name) && exc_is(
            e,
            package + seq!['.'] + name,
        ),
        e.fqcn == name ==> exc_simple(e) == name && exc_is(e, name),
        exc_is(e, name) ==> exc_simple(e) == name || e.fqcn == name,
{
    assert(all_in(name, CharSet::Just('.'), false)) by {
        assert forall|k: int| 0 <= k < name.len() implies CharSet::Just('.').has(
            #[trigger] name[k],
        ) == false by {
            assert(name.contains(name[k]));
        }
    }
    law_around_a_sign(package, '.', name, CharSet::Just('.'));
    law_no_sign(name, CharSet::Just('.'));
}

/// An exception is told with its message behind it, where it has one.
pub proof fn law_text_of_an_exception(e: ExcView)
    ensures
        e.fqcn.is_prefix_of(exc_text(e)),
        e.message is None ==> exc_text(e) == e.fqcn,
        e.message matches Some(m) ==> m.is_suffix_of(exc_text(e)) && exc_text(e).len()
            == e.fqcn.len() + 2 + m.len(),
{
    reveal_strlit(": ");
    let t = exc_text(e);
    assert(e.fqcn =~= t.subrange(0, e.fqcn.len() as int));
    if let Some(m) = e.message {
        assert(m =~= t.subrange(t.len() - m.len(), t.len() as int));
    }
}

/// Whether an exception says that something is missing.
pub open spec fn says_missing(e: ExcView) -> bool {
    ||| exc_simple(e) == "NoSuchMethodError"@
    ||| exc_simple(e) == "NoSuchFieldError"@
    ||| exc_simple(e) == "NoClassDefFoundError"@
    ||| exc_simple(e) == "ClassNotFoundException"@
}

/// Whether exception `i` is the first that says that something is missing.
pub open spec fn first_missing(r: ReportView, i: int) -> bool {
    &&& 0 <= i < r.exceptions.len()
    &&& says_missing(r.exceptions[i])
    &&& forall|j: int| 0 <= j < i ==> !says_missing(#[trigger] r.exceptions[j])
}

proof fn lemma_first_missing(excs: Seq<ExcView>, i: int)
    requires
        0 <= i < excs.len(),
        says_missing(excs[i]),
        forall|j: int| 0 <= j < i ==> !says_missing(#[trigger] excs[j]),
    ensures
        missing_exc(excs) == Some(excs[i]),
    decreases excs.len(),
{
    if i > 0 {
        let rest = excs.skip(1);
        assert(!says_missing(excs[0]));
        assert(rest[i - 1] == excs[i]);
        assert forall|j: int| 0 <= j < i - 1 implies !says_missing(#[trigger] rest[j]) by {
            assert(rest[j] == excs[j + 1]);
        }
        lemma_first_missing(rest, i - 1);
    }
}

proof fn lemma_none_missing(excs: Seq<ExcView>)
    requires
        forall|j: int| 0 <= j < excs.len() ==> !says_missing(#[trigger] excs[j]),
    ensures
        missing_exc(excs) is None,
    decreases excs.len(),
{
    if excs.len() > 0 {
        let rest = excs.skip(1);
        assert(!says_missing(excs[0]));
        assert forall|j: int| 0 <= j < rest.len() implies !says_missing(#[trigger] rest[j]) by {
            assert(rest[j] == excs[j + 1]);
        }
        lemma_none_missing(rest);
    }
}

/// Where exceptions say that something is missing the first of them counts, and the verdict blames
/// the mod of the first frame of a mod, highly confident, whatever is missing.
pub proof fn law_verdict_blames_who_asks(r: ReportView, e: int, i: int, m: ModView)
    requires
        first_missing(r, e),
        first_frame_of_a_mod(r, i, m),
    ensures
        missing_verdict(r) is Some,
        missing_verdict(r)->0.culprit == Some(m.id + " "@ + m.version),
        missing_verdict(r)->0.confidence == Confidence::High,
        (exc_simple(r.exceptions[e]) + ": "@).is_prefix_of(missing_verdict(r)->0.cause),
{
    lemma_first_missing(r.exceptions, e);
    let exc = r.exceptions[e];
    law_missing_symbol_blames_who_asks(r, exc, symbol_missing(exc), i, m);
    lemma_cause_front(r, exc, symbol_missing(exc));
}

/// Where no frame belongs to a mod, the verdict is not highly confident, and tells the exception.
pub proof fn law_verdict_without_a_frame(r: ReportView, e: int)
    requires
        first_missing(r, e),
        no_frame_of_a_mod(r),
    ensures
        missing_verdict(r) is Some,
        missing_verdict(r)->0.confidence == Confidence::Medium,
        exc_text(r.exceptions[e]).is_suffix_of(missing_verdict(r)->0.evidence[0]),
{
    lemma_first_missing(r.exceptions, e);
    let exc = r.exceptions[e];
    law_missing_symbol_blames_its_owner_last(r, exc, symbol_missing(exc), 0);
    let line = missing_verdict(r)->0.evidence[0];
    crate::laws::lookup::law_first_mod_frame(r.frames, r.mods);
    assert(mod_frame(r.frames, r.mods) is None);
    assert(line == "no mod frame in the stacktrace; the exception is: "@ + exc_text(exc));
    assert(exc_text(exc) =~= line.subrange(line.len() - exc_text(exc).len(), line.len() as int));
}

/// Without such an exception nothing is missing.
pub proof fn law_nothing_is_missing(r: ReportView)
    requires
        forall|j: int| 0 <= j < r.exceptions.len() ==> !says_missing(#[trigger] r.exceptions[j]),
    ensures
        missing_verdict(r) is None,
{
    lemma_none_missing(r.exceptions);
}

proof fn lemma_front_of(a: Seq<char>, b: Seq<char>)
    ensures
        a.is_prefix_of(a + b),
{
    assert(a =~= (a + b).subrange(0, a.len() as int));
}

proof fn lemma_cause_front(r: ReportView, exc: ExcView, symbol: Option<SymbolView>)
    ensures
        (exc_simple(exc) + ": "@).is_prefix_of(missing_diagnosis(r, exc, symbol).cause),
{
    let kind = exc_simple(exc);
    let d = missing_diagnosis(r, exc, symbol);
    reveal_strlit(": ");
    reveal_strlit(": the mod asks for a ");
    reveal_strlit(": the mod calls Minecraft code that ");
    reveal_strlit(": a class is missing from the classpath, and ");
    reveal_strlit(": a symbol is missing from the classpath. ");
    let front = kind + ": "@;
    assert(front =~= d.cause.subrange(0, front.len() as int));
}

/// Whether a class is the game's, by its name alone.
pub open spec fn of_the_game(class: Seq<char>) -> bool {
    "net.minecraft."@.is_prefix_of(class) || "com.mojang."@.is_prefix_of(class)
}

/// Whether a class is Forge's, by its name alone.
pub open spec fn of_forge(class: Seq<char>) -> bool {
    "net.minecraftforge."@.is_prefix_of(class) || "cpw.mods."@.is_prefix_of(class)
}

/// Whose a class is: the game's and Forge's go by their packages, whatever mods there are; any other
/// is that of the mod that owns it.
pub proof fn law_whose_a_class_is(mods: Seq<ModView>, class: Seq<char>)
    ensures
        of_the_game(class) <==> owner_of(mods, class) is Vanilla,
        of_forge(class) && !of_the_game(class) <==> owner_of(mods, class) is Forge,
        !of_forge(class) && !of_the_game(class) ==> (mod_owning(mods, class) matches Some(m)
            ==> owner_of(mods, class) == OwnerView::OtherMod(m.id)),
        !of_forge(class) && !of_the_game(class) && mod_owning(mods, class) is None ==> owner_of(
            mods,
            class,
        ) is Unknown,
{
}

/// What is said of something of the game: it is missing in this version of the game.
pub proof fn law_missing_of_the_game(r: ReportView, exc: ExcView, s: SymbolView)
    requires
        of_the_game(s.owner),
    ensures
        ({
            let d = missing_diagnosis(r, exc, Some(s));
            let mc = crate::text::text_or(r.mc_version, "unknown"@);
            &&& (exc_simple(exc) + ": the mod calls Minecraft code that "@ + mc).is_prefix_of(d.cause)
            &&& "use the "@.is_prefix_of(d.fix[0])
            &&& crate::text::has(d.fix[0], " build for MC "@ + mc)
        }),
{
    let d = missing_diagnosis(r, exc, Some(s));
    let mc = crate::text::text_or(r.mc_version, "unknown"@);
    let front = exc_simple(exc) + ": the mod calls Minecraft code that "@ + mc;
    lemma_front_of(front, " does not have. This build is for another game version"@);
    let action = crate::rules::symbol::id_or(crate::rules::symbol::first_mod(r), "that mod"@);
    let end = " (this one is compiled for another version)"@;
    assert(d.fix[0] =~= "use the "@ + action + (" build for MC "@ + mc) + end);
    crate::laws::wording::law_has("use the "@ + action, " build for MC "@ + mc, end, d.fix[0]);
    assert("use the "@ =~= d.fix[0].subrange(0, "use the "@.len() as int));
}

/// What is said of something of Forge: another build of the loader has it.
pub proof fn law_missing_of_forge(r: ReportView, exc: ExcView, s: SymbolView)
    requires
        of_forge(s.owner),
        !of_the_game(s.owner),
    ensures
        ({
            let d = missing_diagnosis(r, exc, Some(s));
            &&& (exc_simple(exc) + ": the mod asks for a "@ + loader_label(r.loader)).is_prefix_of(
                d.cause,
            )
            &&& ("update "@ + loader_label(r.loader)
                + " to the latest build for MC "@).is_prefix_of(d.fix[0])
        }),
{
    let d = missing_diagnosis(r, exc, Some(s));
    let front = exc_simple(exc) + ": the mod asks for a "@ + loader_label(r.loader);
    lemma_front_of(front, " symbol this build does not have"@);
    let start = "update "@ + loader_label(r.loader) + " to the latest build for MC "@;
    assert(start =~= d.fix[0].subrange(0, start.len() as int));
}

/// What is said of something of another mod: a class needs that mod, and anything else needs a
/// version that has it.
pub proof fn law_missing_of_a_mod(r: ReportView, exc: ExcView, s: SymbolView, i: int, m: ModView)
    requires
        !of_forge(s.owner),
        !of_the_game(s.owner),
        mod_owning(r.mods, s.owner) is Some,
        first_frame_of_a_mod(r, i, m),
    ensures
        ({
            let d = missing_diagnosis(r, exc, Some(s));
            let other = mod_owning(r.mods, s.owner)->0.id;
            let class = exc_simple(exc) == "NoClassDefFoundError"@ || exc_simple(exc)
                == "ClassNotFoundException"@;
            &&& class ==> (exc_simple(exc) + ": "@ + (m.id + " "@ + m.version)
                + " needs a class that "@ + other).is_prefix_of(d.cause)
            &&& !class ==> (exc_simple(exc) + ": "@ + (m.id + " "@ + m.version)
                + " calls an API of "@ + other).is_prefix_of(d.cause)
            &&& "install "@.is_prefix_of(d.fix[0])
        }),
{
    law_missing_symbol_blames_who_asks(r, exc, Some(s), i, m);
    let d = missing_diagnosis(r, exc, Some(s));
    let other = mod_owning(r.mods, s.owner)->0.id;
    let who = m.id + " "@ + m.version;
    assert(crate::rules::symbol::first_mod(r) == Some(m)) by {
        crate::laws::blame::lemma_mod_frame(r.frames, r.mods, i);
    }
    lemma_front_of(
        exc_simple(exc) + ": "@ + who + " needs a class that "@ + other,
        " ships and that mod is not loaded (missing dependency)"@,
    );
    lemma_front_of(
        exc_simple(exc) + ": "@ + who + " calls an API of "@ + other,
        " that this version no longer exposes (mod-to-mod mismatch)"@,
    );
    assert("install "@ =~= d.fix[0].subrange(0, "install "@.len() as int));
}

/// The method or field of a message: a call counts before a field, and a blank message has none.
pub proof fn law_symbol_of_a_message(
    msg: Seq<char>,
    call: Option<Seq<Option<Seq<char>>>>,
    field: Option<Seq<Option<Seq<char>>>>,
    owner: Seq<char>,
    name: Seq<char>,
)
    ensures
        unquoted(msg).len() == 0 ==> symbol_made(msg, call, field) is None,
        unquoted(msg).len() > 0 && group_in(call, 1) == Some(owner) && group_in(call, 2) == Some(
            name,
        ) ==> symbol_made(msg, call, field) == Some(
            SymbolView { owner, name, signature: truncated(unquoted(msg), 180), is_method: true },
        ),
        unquoted(msg).len() > 0 && (group_in(call, 1) is None || group_in(call, 2) is None)
            && group_in(field, 1) == Some(owner) && group_in(field, 2) == Some(name)
            ==> symbol_made(msg, call, field) == Some(
            SymbolView { owner, name, signature: truncated(unquoted(msg), 180), is_method: false },
        ),
        (group_in(call, 1) is None || group_in(call, 2) is None) && (group_in(field, 1) is None
            || group_in(field, 2) is None) ==> symbol_made(msg, call, field) is None,
{
}

/// Quotes and white space around a text do not count.
pub proof fn law_quotes_do_not_count(a: Seq<char>, t: Seq<char>, b: Seq<char>)
    requires
        all_in(a, CharSet::White, true),
        all_in(b, CharSet::White, true),
        t.len() > 0,
        !CharSet::White.has(t[0]),
        !CharSet::White.has(t.last()),
        t[0] != '\'',
        t.last() != '\'',
    ensures
        unquoted(a + t + b) == t,
        unquoted(a + (seq!['\''] + t + seq!['\'']) + b) == t,
{
    let quote = seq!['\''];
    let none = Seq::<char>::empty();
    law_trimmed_at_both_ends(a, t, b, CharSet::White, true);
    assert(none + t + none =~= t);
    law_trimmed_at_both_ends(none, t, none, CharSet::Just('\''), true);
    law_trimmed_at_both_ends(none, t, none, CharSet::White, true);
    let q = quote + t + quote;
    assert(q[0] == '\'' && q.last() == '\'');
    law_trimmed_at_both_ends(a, q, b, CharSet::White, true);
    law_trimmed_at_both_ends(quote, t, quote, CharSet::Just('\''), true);
}

/// The class that a message says is missing: the one behind the error's name, whatever else there
/// is; else the last word with a dot in it that does not start with a bracket, without what no class
/// name holds around it.
pub proof fn law_missing_class_of_a_message(
    msg: Seq<char>,
    c: Option<Seq<Option<Seq<char>>>>,
    i: int,
)
    ensures
        group_in(c, 1) is Some ==> missing_class_made(msg, c) == group_in(c, 1),
        group_in(c, 1) is None && 0 <= i < words(msg).len() && words(msg)[i].contains('.')
            && !"("@.is_prefix_of(words(msg)[i]) && (forall|k: int|
            i < k < words(msg).len() ==> !(#[trigger] words(msg)[k]).contains('.')
                || "("@.is_prefix_of(words(msg)[k])) ==> missing_class_made(msg, c) == Some(
            trim_of(words(msg)[i], CharSet::ClassName, false),
        ),
        group_in(c, 1) is None && (forall|k: int|
            0 <= k < words(msg).len() ==> !(#[trigger] words(msg)[k]).contains('.')
                || "("@.is_prefix_of(words(msg)[k])) ==> missing_class_made(msg, c) is None,
{
    lemma_last_dotted(words(msg), i);
}

proof fn lemma_last_dotted(parts: Seq<Seq<char>>, i: int)
    ensures
        0 <= i < parts.len() && parts[i].contains('.') && !"("@.is_prefix_of(parts[i]) && (forall|
            k: int,
        |
            i < k < parts.len() ==> !(#[trigger] parts[k]).contains('.') || "("@.is_prefix_of(
                parts[k],
            )) ==> last_dotted(parts) == Some(parts[i]),
        (forall|k: int|
            0 <= k < parts.len() ==> !(#[trigger] parts[k]).contains('.') || "("@.is_prefix_of(
                parts[k],
            )) ==> last_dotted(parts) is None,
    decreases parts.len(),
{
    if parts.len() > 0 {
        let less = parts.drop_last();
        let n = parts.len() - 1;
        assert(parts.last() == parts[n]);
        assert forall|k: int| 0 <= k < n implies #[trigger] less[k] == parts[k] by {}
        lemma_last_dotted(less, i);
    }
}

/// A class is missing where the error is about classes, and a method or field where it is not.
pub proof fn law_what_is_missing(exc: ExcView)
    ensures
        ({
            let msg = crate::text::text_or(exc.message, Seq::empty());
            let class = exc_simple(exc) == "NoClassDefFoundError"@ || exc_simple(exc)
                == "ClassNotFoundException"@;
            &&& !class ==> symbol_missing(exc) == symbol_made(
                msg,
                captures_of(SYMBOL_CALL@, unquoted(msg)),
                captures_of(SYMBOL_FIELD@, unquoted(msg)),
            )
            &&& class && missing_class_made(msg, captures_of(MISSING_CLASS@, msg)) is None
                ==> symbol_missing(exc) is None
            &&& class ==> (symbol_missing(exc) matches Some(s) ==> s.owner == unquoted(
                missing_class_made(msg, captures_of(MISSING_CLASS@, msg))->0,
            ) && s.name.len() == 0 && s.signature == s.owner && s.owner.contains('.')
                && !s.is_method)
            &&& class ==> (missing_class_made(msg, captures_of(MISSING_CLASS@, msg)) matches Some(
                name,
            ) ==> (unquoted(name).contains('.') ==> symbol_missing(exc) is Some))
        }),
{
}

/// How what is missing is told: a class by its name, a method with brackets and a field without.
pub proof fn law_telling_a_symbol(s: SymbolView)
    ensures
        s.name.len() == 0 ==> symbol_text(s) == s.owner,
        s.name.len() > 0 && s.is_method ==> symbol_text(s) == s.owner + seq!['.'] + s.name + seq![
            '(',
            ')',
        ],
        s.name.len() > 0 && !s.is_method ==> symbol_text(s) == s.owner + seq!['.'] + s.name,
{
    reveal_strlit(".");
    reveal_strlit("()");
    assert("."@ =~= seq!['.']);
    assert("()"@ =~= seq!['(', ')']);
}

/// The evidence starts with the place in the mod's code, with its number in the trace.
pub proof fn law_evidence_starts_with_the_frame(
    r: ReportView,
    exc: ExcView,
    symbol: Option<SymbolView>,
    i: int,
    m: ModView,
)
    requires
        first_frame_of_a_mod(r, i, m),
    ensures
        missing_diagnosis(r, exc, symbol).evidence[0] == frame_site(r.frames[i])
            + " (stacktrace line "@ + decimal(r.frames[i].index) + ")"@,
        missing_diagnosis(r, exc, symbol).evidence.len() >= 4,
{
    crate::laws::blame::lemma_mod_frame(r.frames, r.mods, i);
}

} // verus!

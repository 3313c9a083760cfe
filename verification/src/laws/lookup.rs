//! What holds of looking things up in a report.
use vstd::prelude::*;
use crate::model::{
    claims, claims_lowered, count_mods, id_key, last_cause, mod_frame, mod_owning, mod_with_id,
    own_frame, owner_of_lowered, platform_class, platform_id, root_cause_of, ExcView, FrameView,
    ModView,
};
use crate::text::{ascii_alphanumeric, ascii_digit, ascii_lower, lowercase};

verus! {

proof fn lemma_key_characters(id: Seq<char>, i: int)
    requires
        0 <= i < id_key(id).len(),
    ensures
        ascii_digit(id_key(id)[i]) || 'a' <= id_key(id)[i] <= 'z',
    decreases id.len(),
{
    if i < id_key(id.drop_last()).len() {
        lemma_key_characters(id.drop_last(), i);
    }
}

proof fn lemma_key_of_key(key: Seq<char>)
    requires
        forall|i: int| 0 <= i < key.len() ==> ascii_digit(#[trigger] key[i]) || 'a' <= key[i] <= 'z',
    ensures
        id_key(key) == key,
    decreases key.len(),
{
    if key.len() > 0 {
        let c = key.last();
        assert(c == key[key.len() - 1]);
        lemma_key_of_key(key.drop_last());
        assert(ascii_lower(c) == c);
        assert(key =~= key.drop_last().push(c));
    } else {
        assert(key =~= Seq::<char>::empty());
    }
}

/// The key of a mod id holds lower case ASCII letters and digits alone, and is its own key.
pub proof fn law_key_is_plain(id: Seq<char>)
    ensures
        forall|i: int|
            0 <= i < id_key(id).len() ==> ascii_digit(#[trigger] id_key(id)[i]) || 'a' <= id_key(
                id,
            )[i] <= 'z',
        id_key(id_key(id)) == id_key(id),
{
    assert forall|i: int| 0 <= i < id_key(id).len() implies ascii_digit(#[trigger] id_key(id)[i])
        || 'a' <= id_key(id)[i] <= 'z' by {
        lemma_key_characters(id, i);
    }
    lemma_key_of_key(id_key(id));
}

/// Neither the case of a mod id's ASCII letters nor a character that is no ASCII letter or digit
/// counts when ids are compared.
pub proof fn law_key_ignores_case_and_signs(before: Seq<char>, c: char, after: Seq<char>)
    ensures
        id_key(before + seq![ascii_lower(c)] + after) == id_key(before + seq![c] + after),
        !ascii_alphanumeric(c) ==> id_key(before + seq![c] + after) == id_key(before + after),
    decreases after.len(),
{
    let low = before + seq![ascii_lower(c)] + after;
    let as_is = before + seq![c] + after;
    let without = before + after;
    if after.len() == 0 {
        assert(low.drop_last() =~= before);
        assert(as_is.drop_last() =~= before);
        assert(without =~= before);
        assert(ascii_lower(ascii_lower(c)) == ascii_lower(c));
    } else {
        law_key_ignores_case_and_signs(before, c, after.drop_last());
        assert(low.drop_last() =~= before + seq![ascii_lower(c)] + after.drop_last());
        assert(as_is.drop_last() =~= before + seq![c] + after.drop_last());
        assert(without.drop_last() =~= before + after.drop_last());
    }
}

/// A mod is found by an id exactly where one of the list has an id that compares equal, and the
/// first such is found.
pub proof fn law_mod_is_found_by_id(mods: Seq<ModView>, id: Seq<char>)
    ensures
        match mod_with_id(mods, id) {
            Some(m) => exists|i: int|
                {
                    &&& 0 <= i < mods.len()
                    &&& #[trigger] mods[i] == m
                    &&& id_key(m.id) == id_key(id)
                    &&& forall|j: int| 0 <= j < i ==> id_key((#[trigger] mods[j]).id) != id_key(id)
                },
            None => forall|j: int|
                0 <= j < mods.len() ==> id_key((#[trigger] mods[j]).id) != id_key(id),
        },
    decreases mods.len(),
{
    if mods.len() > 0 {
        if id_key(mods[0].id) == id_key(id) {
            assert(mods[0] == mod_with_id(mods, id)->0);
        } else {
            let rest = mods.skip(1);
            law_mod_is_found_by_id(rest, id);
            match mod_with_id(rest, id) {
                Some(m) => {
                    let i = choose|i: int|
                        {
                            &&& 0 <= i < rest.len()
                            &&& #[trigger] rest[i] == m
                            &&& id_key(m.id) == id_key(id)
                            &&& forall|j: int|
                                0 <= j < i ==> id_key((#[trigger] rest[j]).id) != id_key(id)
                        };
                    assert(mods[i + 1] == m);
                    assert forall|j: int| 0 <= j < i + 1 implies id_key((#[trigger] mods[j]).id)
                        != id_key(id) by {
                        if j > 0 {
                            assert(rest[j - 1] == mods[j]);
                        }
                    }
                },
                None => {
                    assert forall|j: int| 0 <= j < mods.len() implies id_key(
                        (#[trigger] mods[j]).id,
                    ) != id_key(id) by {
                        if j > 0 {
                            assert(rest[j - 1] == mods[j]);
                        }
                    }
                },
            }
        }
    }
}

pub proof fn lemma_owner(mods: Seq<ModView>, lower: Seq<char>)
    ensures
        match owner_of_lowered(mods, lower) {
            Some(m) => {
                &&& claims_lowered(m, lower)
                &&& !platform_id(m.id)
                &&& exists|i: int|
                    {
                        &&& 0 <= i < mods.len()
                        &&& #[trigger] mods[i] == m
                        &&& forall|j: int|
                            0 <= j < mods.len() && claims_lowered(#[trigger] mods[j], lower) ==> id_key(
                                mods[j].id,
                            ).len() <= id_key(m.id).len()
                        &&& forall|j: int|
                            0 <= j < i && claims_lowered(#[trigger] mods[j], lower) ==> id_key(
                                mods[j].id,
                            ).len() < id_key(m.id).len()
                    }
            },
            None => forall|j: int| 0 <= j < mods.len() ==> !claims_lowered(#[trigger] mods[j], lower),
        },
    decreases mods.len(),
{
    if mods.len() > 0 {
        let before = mods.drop_last();
        let last = mods.last();
        let n = mods.len() - 1;
        lemma_owner(before, lower);
        assert(mods[n] == last);
        assert forall|j: int| 0 <= j < n implies #[trigger] mods[j] == before[j] by {}
        match owner_of_lowered(before, lower) {
            Some(m) => {
                let i = choose|i: int|
                    {
                        &&& 0 <= i < before.len()
                        &&& #[trigger] before[i] == m
                        &&& forall|j: int|
                            0 <= j < before.len() && claims_lowered(#[trigger] before[j], lower) ==> id_key(
                                before[j].id,
                            ).len() <= id_key(m.id).len()
                        &&& forall|j: int|
                            0 <= j < i && claims_lowered(#[trigger] before[j], lower) ==> id_key(
                                before[j].id,
                            ).len() < id_key(m.id).len()
                    };
                assert(mods[i] == before[i]);
            },
            None => {},
        }
    }
}

/// A class belongs to a mod exactly where its name speaks of one outside the platform. Of those
/// that it speaks of none has a longer key than the owner, and none before the owner has one as
/// long.
pub proof fn law_owner_has_the_longest_key(mods: Seq<ModView>, class: Seq<char>)
    ensures
        match mod_owning(mods, class) {
            Some(m) => {
                &&& claims(m, class)
                &&& !platform_id(m.id)
                &&& exists|i: int|
                    {
                        &&& 0 <= i < mods.len()
                        &&& #[trigger] mods[i] == m
                        &&& forall|j: int|
                            0 <= j < mods.len() && claims(#[trigger] mods[j], class) ==> id_key(
                                mods[j].id,
                            ).len() <= id_key(m.id).len()
                        &&& forall|j: int|
                            0 <= j < i && claims(#[trigger] mods[j], class) ==> id_key(
                                mods[j].id,
                            ).len() < id_key(m.id).len()
                    }
            },
            None => forall|j: int| 0 <= j < mods.len() ==> !claims(#[trigger] mods[j], class),
        },
{
    lemma_owner(mods, lowercase(class));
}

/// The frame of a mod that is found lies outside the platform and belongs to a mod, and is the
/// first such; where there is none, no frame is such.
pub proof fn law_first_mod_frame(frames: Seq<FrameView>, mods: Seq<ModView>)
    ensures
        match mod_frame(frames, mods) {
            Some(f) => {
                &&& !platform_class(f.class)
                &&& mod_owning(mods, f.class) is Some
                &&& exists|i: int|
                    {
                        &&& 0 <= i < frames.len()
                        &&& #[trigger] frames[i] == f
                        &&& forall|j: int|
                            0 <= j < i ==> platform_class((#[trigger] frames[j]).class)
                                || mod_owning(mods, frames[j].class) is None
                    }
            },
            None => forall|j: int|
                0 <= j < frames.len() ==> platform_class((#[trigger] frames[j]).class)
                    || mod_owning(mods, frames[j].class) is None,
        },
    decreases frames.len(),
{
    if frames.len() > 0 {
        let rest = frames.skip(1);
        if !platform_class(frames[0].class) && mod_owning(mods, frames[0].class) is Some {
            assert(frames[0] == mod_frame(frames, mods)->0);
        } else {
            law_first_mod_frame(rest, mods);
            assert forall|j: int| 1 <= j < frames.len() implies #[trigger] frames[j] == rest[j
                - 1] by {}
            match mod_frame(rest, mods) {
                Some(f) => {
                    let i = choose|i: int|
                        {
                            &&& 0 <= i < rest.len()
                            &&& #[trigger] rest[i] == f
                            &&& forall|j: int|
                                0 <= j < i ==> platform_class((#[trigger] rest[j]).class)
                                    || mod_owning(mods, rest[j].class) is None
                        };
                    assert(frames[i + 1] == f);
                },
                None => {},
            }
        }
    }
}

/// Where no frame lies outside the platform, none is a mod's.
pub proof fn law_no_own_frame_no_mod_frame(frames: Seq<FrameView>, mods: Seq<ModView>)
    ensures
        own_frame(frames) is None ==> mod_frame(frames, mods) is None,
    decreases frames.len(),
{
    if frames.len() > 0 {
        law_no_own_frame_no_mod_frame(frames.skip(1), mods);
    }
}

/// Any exception gives a root cause: the last that caused another, or the last of all where none
/// did.
pub proof fn law_root_cause(excs: Seq<ExcView>)
    ensures
        root_cause_of(excs) is Some <==> excs.len() > 0,
        excs.len() > 0 ==> excs.contains(root_cause_of(excs)->0),
        forall|i: int|
            0 <= i < excs.len() && (#[trigger] excs[i]).caused_by && (forall|j: int|
                i < j < excs.len() ==> !(#[trigger] excs[j]).caused_by) ==> root_cause_of(excs)
                == Some(excs[i]),
        excs.len() > 0 && (forall|j: int| 0 <= j < excs.len() ==> !(#[trigger] excs[j]).caused_by)
            ==> root_cause_of(excs) == Some(excs.last()),
{
    assert forall|i: int|
        0 <= i < excs.len() && (#[trigger] excs[i]).caused_by && (forall|j: int|
            i < j < excs.len() ==> !(#[trigger] excs[j]).caused_by) implies root_cause_of(excs)
        == Some(excs[i]) by {
        lemma_last_cause(excs, i);
    }
    lemma_cause_is_listed(excs);
    if excs.len() > 0 {
        assert(excs.last() == excs[excs.len() - 1]);
    }
    if last_cause(excs) is Some {
        let i = choose|i: int| 0 <= i < excs.len() && excs[i] == last_cause(excs)->0;
        assert(excs[i].caused_by);
    }
}

proof fn lemma_last_cause(excs: Seq<ExcView>, i: int)
    requires
        0 <= i < excs.len(),
        excs[i].caused_by,
        forall|j: int| i < j < excs.len() ==> !(#[trigger] excs[j]).caused_by,
    ensures
        last_cause(excs) == Some(excs[i]),
    decreases excs.len(),
{
    if i < excs.len() - 1 {
        assert(!excs[excs.len() - 1].caused_by);
        lemma_last_cause(excs.drop_last(), i);
    }
}

proof fn lemma_cause_is_listed(excs: Seq<ExcView>)
    ensures
        last_cause(excs) is Some ==> excs.contains(last_cause(excs)->0) && last_cause(
            excs,
        )->0.caused_by,
    decreases excs.len(),
{
    if excs.len() > 0 {
        let before = excs.drop_last();
        lemma_cause_is_listed(before);
        assert(excs.last() == excs[excs.len() - 1]);
        if last_cause(before) is Some && before.contains(last_cause(before)->0) {
            let i = choose|i: int| 0 <= i < before.len() && before[i] == last_cause(before)->0;
            assert(excs[i] == before[i]);
        }
    }
}

/// The mods that count are no more than those that are listed.
pub proof fn law_mod_count_is_bounded(mods: Seq<ModView>)
    ensures
        count_mods(mods) <= mods.len(),
    decreases mods.len(),
{
    if mods.len() > 0 {
        law_mod_count_is_bounded(mods.drop_last());
    }
}

} // verus!

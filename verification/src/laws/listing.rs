//! What holds of the list of reports.
use vstd::prelude::*;
use vstd::seq_lib::lemma_multiset_commutative;
use crate::ui::listing::{
    age_of, found_among, found_at, found_in, listed, nanos_of, newer_in_front, newest_first, wanted,
    with_found, EntryView, FolderView, FoundView, Stamp, MAX_LISTED,
};

verus! {

/// Whether no report is newer than one before it.
pub open spec fn newest_in_front(list: Seq<FoundView>) -> bool {
    forall|i: int, j: int|
        0 <= i < j < list.len() ==> nanos_of((#[trigger] list[i]).modified) >= nanos_of(
            (#[trigger] list[j]).modified,
        )
}

proof fn lemma_newer_in_front(list: Seq<FoundView>, t: Stamp)
    ensures
        newer_in_front(list, t) <= list.len(),
        forall|i: int|
            0 <= i < newer_in_front(list, t) ==> nanos_of((#[trigger] list[i]).modified)
                >= nanos_of(t),
        newer_in_front(list, t) < list.len() ==> nanos_of(
            list[newer_in_front(list, t) as int].modified,
        ) < nanos_of(t),
    decreases list.len(),
{
    if list.len() > 0 && nanos_of(list[0].modified) >= nanos_of(t) {
        let rest = list.skip(1);
        lemma_newer_in_front(rest, t);
        assert forall|i: int| 0 <= i < newer_in_front(list, t) implies nanos_of(
            (#[trigger] list[i]).modified,
        ) >= nanos_of(t) by {
            if i > 0 {
                assert(list[i] == rest[i - 1]);
            }
        }
    }
}

proof fn lemma_insert_keeps_order(list: Seq<FoundView>, f: FoundView)
    requires
        newest_in_front(list),
    ensures
        newest_in_front(with_found(list, f)),
{
    let n = newer_in_front(list, f.modified) as int;
    let after = with_found(list, f);
    lemma_newer_in_front(list, f.modified);
    assert forall|i: int, j: int| 0 <= i < j < after.len() implies nanos_of(
        (#[trigger] after[i]).modified,
    ) >= nanos_of((#[trigger] after[j]).modified) by {
        let a = if i < n {
            list[i]
        } else {
            list[i - 1]
        };
        let b = if j < n {
            list[j]
        } else {
            list[j - 1]
        };
        if i == n {
            if j - 1 > n {
                assert(nanos_of(list[n].modified) >= nanos_of(list[j - 1].modified));
            }
        } else if j == n {
            assert(nanos_of(list[i].modified) >= nanos_of(f.modified));
        }
    }
}

proof fn lemma_sorted(found: Seq<FoundView>)
    ensures
        newest_in_front(newest_first(found)),
        newest_first(found).len() == found.len(),
        newest_first(found).to_multiset() == found.to_multiset(),
    decreases found.len(),
{
    broadcast use vstd::seq_lib::group_to_multiset_ensures;

    if found.len() > 0 {
        let before = newest_first(found.drop_last());
        let f = found.last();
        lemma_sorted(found.drop_last());
        lemma_insert_keeps_order(before, f);
        lemma_newer_in_front(before, f.modified);
        let n = newer_in_front(before, f.modified) as int;
        assert(found =~= found.drop_last().push(f));
        assert(newest_first(found) =~= before.take(n).push(f) + before.skip(n));
        assert(before =~= before.take(n) + before.skip(n));
        lemma_multiset_commutative(before.take(n).push(f), before.skip(n));
        lemma_multiset_commutative(before.take(n), before.skip(n));
        assert(newest_first(found).to_multiset() =~= before.to_multiset().insert(f));
        assert(found.to_multiset() =~= found.drop_last().to_multiset().insert(f));
    }
}

/// The list holds every report once, as often as it was found, and the newest first.
pub proof fn law_sorting_loses_nothing(found: Seq<FoundView>)
    ensures
        newest_in_front(newest_first(found)),
        newest_first(found).to_multiset() == found.to_multiset(),
{
    lemma_sorted(found);
}

/// Whether a report was written at `t`.
pub open spec fn written_at(f: FoundView, t: Stamp) -> bool {
    nanos_of(f.modified) == nanos_of(t)
}

/// The reports written at `t`, in order.
pub open spec fn of_time(list: Seq<FoundView>, t: Stamp) -> Seq<FoundView>
    decreases list.len(),
{
    if list.len() == 0 {
        Seq::empty()
    } else if written_at(list.last(), t) {
        of_time(list.drop_last(), t).push(list.last())
    } else {
        of_time(list.drop_last(), t)
    }
}

proof fn lemma_of_time_concat(a: Seq<FoundView>, b: Seq<FoundView>, t: Stamp)
    ensures
        of_time(a + b, t) == of_time(a, t) + of_time(b, t),
    decreases b.len(),
{
    if b.len() == 0 {
        assert(a + b =~= a);
        assert(of_time(a, t) + of_time(b, t) =~= of_time(a, t));
    } else {
        lemma_of_time_concat(a, b.drop_last(), t);
        assert((a + b).drop_last() =~= a + b.drop_last());
        assert((a + b).last() == b.last());
        assert(of_time(a + b, t) =~= of_time(a, t) + of_time(b, t));
    }
}

proof fn lemma_none_of_time(list: Seq<FoundView>, t: Stamp)
    requires
        forall|i: int| 0 <= i < list.len() ==> !written_at(#[trigger] list[i], t),
    ensures
        of_time(list, t) == Seq::<FoundView>::empty(),
    decreases list.len(),
{
    if list.len() > 0 {
        let before = list.drop_last();
        assert forall|i: int| 0 <= i < before.len() implies !written_at(
            #[trigger] before[i],
            t,
        ) by {
            assert(before[i] == list[i]);
        }
        lemma_none_of_time(before, t);
        assert(!written_at(list[list.len() - 1], t));
    }
}

/// Reports of one time stay in the order in which they were found.
pub proof fn law_sorting_is_stable(found: Seq<FoundView>, t: Stamp)
    ensures
        of_time(newest_first(found), t) == of_time(found, t),
    decreases found.len(),
{
    if found.len() > 0 {
        let before = newest_first(found.drop_last());
        let f = found.last();
        law_sorting_is_stable(found.drop_last(), t);
        lemma_sorted(found.drop_last());
        lemma_newer_in_front(before, f.modified);
        let n = newer_in_front(before, f.modified) as int;
        let front = before.take(n);
        let back = before.skip(n);
        assert(newest_first(found) =~= front.push(f) + back);
        assert(before =~= front + back);
        lemma_of_time_concat(front, back, t);
        lemma_of_time_concat(front.push(f), back, t);
        assert(front.push(f).drop_last() =~= front);
        if written_at(f, t) {
            assert forall|i: int| 0 <= i < back.len() implies !written_at(
                #[trigger] back[i],
                t,
            ) by {
                assert(back[i] == before[n + i]);
                if i > 0 {
                    assert(nanos_of(before[n].modified) >= nanos_of(before[n + i].modified));
                }
            }
            lemma_none_of_time(back, t);
            assert(of_time(front.push(f), t) =~= of_time(front, t).push(f));
            assert(of_time(newest_first(found), t) =~= of_time(before, t).push(f));
        }
    }
}

/// No more than `MAX_LISTED` reports are listed, and none that is left out is newer than one that
/// is listed.
pub proof fn law_newest_are_listed(found: Seq<FoundView>)
    ensures
        listed(found).len() == if found.len() > MAX_LISTED {
            MAX_LISTED as nat
        } else {
            found.len()
        },
        newest_in_front(listed(found)),
        forall|i: int, j: int|
            0 <= i < listed(found).len() <= j < newest_first(found).len() ==> nanos_of(
                (#[trigger] listed(found)[i]).modified,
            ) >= nanos_of((#[trigger] newest_first(found)[j]).modified),
{
    lemma_sorted(found);
    let all = newest_first(found);
    assert forall|i: int| 0 <= i < listed(found).len() implies #[trigger] listed(found)[i]
        == all[i] by {}
}

/// Whether entry `j` of folder `i` could be read and is a regular file with a name that is wanted.
pub open spec fn wanted_at(folders: Seq<FolderView>, i: int, j: int) -> bool {
    &&& 0 <= i < folders.len()
    &&& folders[i].entries is Some
    &&& 0 <= j < folders[i].entries->0.len()
    &&& folders[i].entries->0[j].meta is Some
    &&& wanted(
        folders[i].entries->0[j].name,
        folders[i].explicit,
        Some(folders[i].entries->0[j].meta->0.is_file),
    )
}

/// The report that entry `j` of folder `i` is.
pub open spec fn report_at(folders: Seq<FolderView>, i: int, j: int) -> FoundView {
    found_at(folders[i].entries->0[j], folders[i].explicit)->0
}

proof fn lemma_found_in(entries: Seq<EntryView>, explicit: bool)
    ensures
        forall|k: int|
            0 <= k < found_in(entries, explicit).len() ==> exists|j: int|
                0 <= j < entries.len() && found_at(#[trigger] entries[j], explicit) == Some(
                    #[trigger] found_in(entries, explicit)[k],
                ),
        forall|j: int|
            0 <= j < entries.len() && found_at(#[trigger] entries[j], explicit) is Some
                ==> found_in(entries, explicit).contains(found_at(entries[j], explicit)->0),
    decreases entries.len(),
{
    if entries.len() > 0 {
        let before = entries.drop_last();
        let list = found_in(entries, explicit);
        let short = found_in(before, explicit);
        let n = entries.len() - 1;
        lemma_found_in(before, explicit);
        assert(entries[n] == entries.last());
        assert forall|k: int| 0 <= k < list.len() implies exists|j: int|
            0 <= j < entries.len() && found_at(#[trigger] entries[j], explicit) == Some(
                #[trigger] list[k],
            ) by {
            if k < short.len() {
                assert(list[k] == short[k]);
                let j = choose|j: int|
                    0 <= j < before.len() && found_at(#[trigger] before[j], explicit) == Some(
                        short[k],
                    );
                assert(entries[j] == before[j]);
            } else {
                assert(found_at(entries[n], explicit) == Some(list[k]));
            }
        }
        assert forall|j: int|
            0 <= j < entries.len() && found_at(
                #[trigger] entries[j],
                explicit,
            ) is Some implies list.contains(found_at(entries[j], explicit)->0) by {
            if j < n {
                assert(before[j] == entries[j]);
                let f = found_at(before[j], explicit)->0;
                let k = choose|k: int| 0 <= k < short.len() && short[k] == f;
                assert(list[k] == f);
            } else {
                assert(list[list.len() - 1] == found_at(entries[j], explicit)->0);
            }
        }
    }
}

proof fn lemma_found_is_wanted(folders: Seq<FolderView>, k: int)
    requires
        0 <= k < found_among(folders).len(),
    ensures
        exists|i: int, j: int|
            #[trigger] wanted_at(folders, i, j) && report_at(folders, i, j) == found_among(
                folders,
            )[k],
    decreases folders.len(),
{
    let before = folders.drop_last();
    let n = folders.len() - 1;
    let short = found_among(before);
    let f = found_among(folders)[k];
    assert(folders[n] == folders.last());
    if k < short.len() {
        lemma_found_is_wanted(before, k);
        let (i, j) = choose|i: int, j: int|
            #[trigger] wanted_at(before, i, j) && report_at(before, i, j) == short[k];
        assert(folders[i] == before[i]);
        assert(wanted_at(folders, i, j) && report_at(folders, i, j) == f);
    } else {
        let entries = folders[n].entries->0;
        let explicit = folders[n].explicit;
        lemma_found_in(entries, explicit);
        assert(f == found_in(entries, explicit)[k - short.len()]);
        let j = choose|j: int|
            0 <= j < entries.len() && found_at(#[trigger] entries[j], explicit) == Some(f);
        assert(wanted_at(folders, n, j) && report_at(folders, n, j) == f);
    }
}

proof fn lemma_wanted_is_found(folders: Seq<FolderView>, i: int, j: int)
    requires
        wanted_at(folders, i, j),
    ensures
        found_among(folders).contains(report_at(folders, i, j)),
    decreases folders.len(),
{
    let before = folders.drop_last();
    let n = folders.len() - 1;
    let short = found_among(before);
    let list = found_among(folders);
    let f = report_at(folders, i, j);
    assert(folders[n] == folders.last());
    if i < n {
        assert(before[i] == folders[i]);
        lemma_wanted_is_found(before, i, j);
        let k = choose|k: int| 0 <= k < short.len() && short[k] == f;
        assert(list[k] == f);
    } else {
        let entries = folders[n].entries->0;
        let explicit = folders[n].explicit;
        lemma_found_in(entries, explicit);
        assert(found_at(entries[j], explicit) == Some(f));
        let here = found_in(entries, explicit);
        let k = choose|k: int| 0 <= k < here.len() && here[k] == f;
        assert(list[short.len() + k] == f);
    }
}

/// Only regular files are listed whose names are wanted: text files in a folder that was asked for,
/// and those of the game in any other.
pub proof fn law_only_wanted_files_are_listed(folders: Seq<FolderView>, k: int)
    requires
        0 <= k < listed(found_among(folders)).len(),
    ensures
        exists|i: int, j: int|
            #[trigger] wanted_at(folders, i, j) && report_at(folders, i, j) == listed(
                found_among(folders),
            )[k],
{
    broadcast use vstd::seq_lib::group_to_multiset_ensures;

    let found = found_among(folders);
    lemma_sorted(found);
    let f = listed(found)[k];
    assert(newest_first(found)[k] == f);
    assert(newest_first(found).contains(f));
    assert(found.to_multiset().count(f) > 0);
    assert(found.contains(f));
    let m = choose|m: int| 0 <= m < found.len() && found[m] == f;
    lemma_found_is_wanted(folders, m);
}

/// Every regular file with a name that is wanted is listed, unless more are found than are listed
/// and no listed one is older.
pub proof fn law_wanted_files_are_listed(folders: Seq<FolderView>, i: int, j: int)
    requires
        wanted_at(folders, i, j),
    ensures
        listed(found_among(folders)).contains(report_at(folders, i, j)) || (found_among(
            folders,
        ).len() > MAX_LISTED && forall|k: int|
            0 <= k < listed(found_among(folders)).len() ==> nanos_of(
                (#[trigger] listed(found_among(folders))[k]).modified,
            ) >= nanos_of(report_at(folders, i, j).modified)),
{
    broadcast use vstd::seq_lib::group_to_multiset_ensures;

    let found = found_among(folders);
    let all = newest_first(found);
    let f = report_at(folders, i, j);
    lemma_wanted_is_found(folders, i, j);
    lemma_sorted(found);
    law_newest_are_listed(found);
    assert(all.to_multiset().count(f) > 0);
    assert(all.contains(f));
    let k = choose|k: int| 0 <= k < all.len() && all[k] == f;
    if k < listed(found).len() {
        assert(listed(found)[k] == f);
    }
}

/// What is yet to come counts as no time ago, and an age never falls as time goes on.
pub proof fn law_age_never_falls(then: Stamp, now: Stamp, later: Stamp)
    requires
        nanos_of(now) <= nanos_of(later),
    ensures
        age_of(now, then) <= age_of(later, then),
        nanos_of(now) <= nanos_of(then) ==> age_of(now, then) == 0,
{
}

} // verus!

//! What holds of the evidence that is given.
use vstd::prelude::*;
use crate::model::{frame_site, platform_class, FrameView, ModView, ReportView};
use crate::pattern::matches_of;
use crate::rules::common::no_lines;
use crate::rules::fallback::{own_sites, shown, sites, SHOWN_FRAMES};
use crate::rules::registry::{
    collected, collected_below, entry_text, id_text, lines_below, missing_in, owners_of_ids,
    registry_culprits, role_of, with_ids, with_mods, with_named, LineRole, MissingView,
    MOD_OF_ENTRY, REGISTRY_ID,
};
use crate::text::{find_of, lines_of, trimmed, truncated};

verus! {

/// A text that is cut off is at most three dots longer than it may be, and starts as it did. One
/// that is not too long stays as it is.
pub proof fn law_truncated(s: Seq<char>, max: nat)
    ensures
        truncated(s, max).len() <= max + 3,
        s.len() <= max ==> truncated(s, max) == s,
        s.len() > max ==> truncated(s, max) == s.take(max as int) + seq!['.', '.', '.'],
        s.len() > max ==> s.take(max as int).is_prefix_of(truncated(s, max)),
{
    reveal_strlit("...");
    if s.len() > max {
        assert(truncated(s, max) =~= s.take(max as int) + seq!['.', '.', '.']);
        assert(s.take(max as int) =~= truncated(s, max).subrange(0, max as int));
    }
}

proof fn lemma_with_ids(list: Seq<Seq<char>>, found: Seq<Seq<Option<Seq<char>>>>)
    requires
        list.no_duplicates(),
    ensures
        with_ids(list, found).no_duplicates(),
    decreases found.len(),
{
    if found.len() > 0 {
        lemma_with_ids(list, found.drop_last());
    }
}

proof fn lemma_with_mods(list: Seq<Seq<char>>, found: Seq<Seq<Option<Seq<char>>>>)
    requires
        list.no_duplicates(),
    ensures
        with_mods(list, found).no_duplicates(),
    decreases found.len(),
{
    if found.len() > 0 {
        lemma_with_mods(list, found.drop_last());
    }
}

spec fn distinct(m: MissingView) -> bool {
    m.ids.no_duplicates() && m.mods.no_duplicates()
}

proof fn lemma_collected(m: MissingView, line: Seq<char>, marker_line: bool)
    requires
        distinct(m),
    ensures
        distinct(collected(m, line, marker_line)),
{
    let body = entry_text(line, marker_line);
    lemma_with_ids(m.ids, matches_of(REGISTRY_ID@, id_text(body)));
    lemma_with_mods(m.mods, matches_of(MOD_OF_ENTRY@, body));
}

proof fn lemma_collected_below(m: MissingView, below: Seq<Seq<char>>)
    requires
        distinct(m),
    ensures
        distinct(collected_below(m, below)),
    decreases below.len(),
{
    if below.len() > 0 {
        let line = trimmed(below[0]);
        match role_of(line, m.ids.len() > 0) {
            LineRole::Stop => {},
            LineRole::Skip => {
                lemma_collected_below(m, below.skip(1));
            },
            LineRole::Read => {
                lemma_collected(m, line, false);
                lemma_collected_below(collected(m, line, false), below.skip(1));
            },
        }
    }
}

/// No missing registry id, and no mod that lacks one, is listed twice.
pub proof fn law_missing_ids_are_distinct(raw: Seq<char>, marker: Seq<char>)
    ensures
        missing_in(raw, marker).ids.no_duplicates(),
        missing_in(raw, marker).mods.no_duplicates(),
{
    let none = MissingView { ids: no_lines(), mods: no_lines() };
    match find_of(raw, marker) {
        None => {},
        Some(i) => {
            let all = lines_of(raw.skip(i + marker.len()));
            if all.len() > 0 {
                lemma_collected(none, marker + all[0], true);
                lemma_collected_below(collected(none, marker + all[0], true), lines_below(all));
            } else {
                lemma_collected_below(none, lines_below(all));
            }
        },
    }
}

proof fn lemma_owners(mods: Seq<ModView>, ids: Seq<Seq<char>>)
    ensures
        owners_of_ids(mods, ids).no_duplicates(),
    decreases ids.len(),
{
    if ids.len() > 0 {
        lemma_owners(mods, ids.drop_last());
    }
}

proof fn lemma_named(list: Seq<Seq<char>>, mods: Seq<ModView>, ids: Seq<Seq<char>>)
    requires
        list.no_duplicates(),
    ensures
        with_named(list, mods, ids).no_duplicates(),
    decreases ids.len(),
{
    if ids.len() > 0 {
        lemma_named(list, mods, ids.drop_last());
    }
}

/// No culprit behind missing registry entries is named twice.
pub proof fn law_registry_culprits_are_distinct(r: ReportView, m: MissingView)
    ensures
        registry_culprits(r, m).no_duplicates(),
{
    lemma_owners(r.mods, m.ids);
    lemma_named(owners_of_ids(r.mods, m.ids), r.mods, m.mods);
}

/// The frames of a guess lie outside the platform, and no two have the same site.
pub proof fn law_guessed_frames(frames: Seq<FrameView>)
    ensures
        sites(own_sites(frames)).no_duplicates(),
        forall|i: int|
            0 <= i < own_sites(frames).len() ==> !platform_class(
                (#[trigger] own_sites(frames)[i]).class,
            ),
    decreases frames.len(),
{
    if frames.len() > 0 {
        let before = own_sites(frames.drop_last());
        let f = frames.last();
        law_guessed_frames(frames.drop_last());
        assert(sites(before.push(f)) =~= sites(before).push(frame_site(f)));
    }
}

/// No more than `SHOWN_FRAMES` lines are shown, and they are the first.
pub proof fn law_shown_frames(lines: Seq<Seq<char>>)
    ensures
        shown(lines).len() <= SHOWN_FRAMES,
        shown(lines).is_prefix_of(lines),
        lines.len() <= SHOWN_FRAMES ==> shown(lines) == lines,
{
    assert(shown(lines) =~= lines.subrange(0, shown(lines).len() as int));
}

} // verus!

//! An entity or a block entity throws in its tick.
use vstd::prelude::*;
use crate::model::{
    exc_text, frame_site, mod_frame, mod_label, mod_owning, mod_with_namespace, root_cause_of,
    section_named, Confidence, Diagnosis, DiagnosisView, ModInfo, ModView, Report, ReportView,
};
use crate::number::{decimal, decimal_text};
use crate::pattern::{captures_of, group_in, group_text, groups_of, Groups, Pattern};
use crate::rules::common::{
    mod_view, new_lines, no_lines, push_entry_and_env, push_jar_hint, verdict_of,
    with_entry_and_env, with_jar_advice,
};
use crate::rules::symbol::{first_mod, id_or, id_text, mod_of_frame, string_or};
use crate::text::{
    cat2, cat3, cat5, cat6, contains, has, lowercase, push_text, text_of, text_or, to_lower,
    truncate, truncated,
};

verus! {

pub const BLOCK_NAME: &'static str = r"(?m)^[ \t]*Name:\s*([^\s/]+)\s*(?://\s*([^\s]+))?";

pub const BLOCK_TYPE: &'static str = r"(?m)^[ \t]*Block type:\s*([^\s(]+)(?:\s*\(([^)]+)\))?";

pub const ENTITY_TYPE: &'static str = r"(?m)^[ \t]*Entity Type:\s*([^\s(]+)(?:\s*\(([^)]+)\))?";

pub const EXACT_LOCATION: &'static str = r"(?m)^[ \t]*Entity's Exact location:\s*(-?[\d.]+,\s*-?[\d.]+,\s*-?[\d.]+)";

pub const BLOCK_LOCATION: &'static str = r"World:\s*\(\s*(-?\d+),\s*(-?\d+),\s*(-?\d+)\)";

/// What the report's text says of what was ticked.
pub struct TickSigns {
    /// The type of an entity, and its class.
    pub entity: Option<Groups>,
    /// The type of a block, and its class.
    pub block_type: Option<Groups>,
    /// The name of a block entity, and its class.
    pub block_name: Option<Groups>,
    /// Where the entity was.
    pub exact: Option<Groups>,
    /// The coordinates of the block.
    pub block: Option<Groups>,
}

pub struct TickView {
    pub entity: Option<Seq<Option<Seq<char>>>>,
    pub block_type: Option<Seq<Option<Seq<char>>>>,
    pub block_name: Option<Seq<Option<Seq<char>>>>,
    pub exact: Option<Seq<Option<Seq<char>>>>,
    pub block: Option<Seq<Option<Seq<char>>>>,
}

impl View for TickSigns {
    type V = TickView;

    open spec fn view(&self) -> TickView {
        TickView {
            entity: groups_of(self.entity),
            block_type: groups_of(self.block_type),
            block_name: groups_of(self.block_name),
            exact: groups_of(self.exact),
            block: groups_of(self.block),
        }
    }
}

pub open spec fn tick_signs(raw: Seq<char>) -> TickView {
    TickView {
        entity: captures_of(ENTITY_TYPE@, raw),
        block_type: captures_of(BLOCK_TYPE@, raw),
        block_name: captures_of(BLOCK_NAME@, raw),
        exact: captures_of(EXACT_LOCATION@, raw),
        block: captures_of(BLOCK_LOCATION@, raw),
    }
}

/// Group `i` of the entity, else of the block's name, else of the block's type.
pub open spec fn ticked_part(t: TickView, i: int) -> Option<Seq<char>> {
    if group_in(t.entity, i) is Some {
        group_in(t.entity, i)
    } else if group_in(t.block_name, i) is Some {
        group_in(t.block_name, i)
    } else {
        group_in(t.block_type, i)
    }
}

fn part_ticked(t: &TickSigns, i: usize) -> (r: Option<String>)
    ensures
        text_of(r) == ticked_part(t@, i as int),
{
    let entity = group_text(&t.entity, i);
    if entity.is_some() {
        return entity;
    }
    let name = group_text(&t.block_name, i);
    if name.is_some() {
        return name;
    }
    group_text(&t.block_type, i)
}

/// The type of what was ticked.
pub open spec fn ticked_type(t: TickView) -> Option<Seq<char>> {
    ticked_part(t, 1)
}

/// The class of what was ticked.
pub open spec fn ticked_class(t: TickView) -> Option<Seq<char>> {
    ticked_part(t, 2)
}

/// The coordinates of the block.
pub open spec fn block_position(t: TickView) -> Option<Seq<char>> {
    match (group_in(t.block, 1), group_in(t.block, 2), group_in(t.block, 3)) {
        (Some(x), Some(y), Some(z)) => Some(x + ","@ + y + ","@ + z),
        _ => None,
    }
}

fn position_of_block(t: &TickSigns) -> (r: Option<String>)
    ensures
        text_of(r) == block_position(t@),
{
    match (group_text(&t.block, 1), group_text(&t.block, 2), group_text(&t.block, 3)) {
        (Some(x), Some(y), Some(z)) => Some(cat5(&x, ",", &y, ",", &z)),
        _ => None,
    }
}

pub open spec fn ticking_block_section(r: ReportView) -> bool {
    section_named(r.sections, "Block entity being ticked"@) is Some
}

/// Whether a report speaks of a tick: in its description, which is given in lower case, by a
/// section, or in its text.
pub open spec fn tick_told(
    lower: Seq<char>,
    entity_section: bool,
    block_section: bool,
    raw: Seq<char>,
) -> bool {
    ||| has(lower, "ticking"@)
    ||| entity_section
    ||| block_section
    ||| has(raw, "Exception ticking entity"@)
    ||| has(raw, "Exception ticking block entity"@)
}

pub fn speaks_of_tick(lower: &str, entity_section: bool, block_section: bool, raw: &str) -> (r:
    bool)
    ensures
        r == tick_told(lower@, entity_section, block_section, raw@),
{
    contains(lower, "ticking") || entity_section || block_section || contains(
        raw,
        "Exception ticking entity",
    ) || contains(raw, "Exception ticking block entity")
}

/// Whether a report speaks of a tick.
pub open spec fn tick_failed(r: ReportView) -> bool {
    tick_told(
        lowercase(text_or(r.description, ""@)),
        section_named(r.sections, "Entity being ticked"@) is Some,
        ticking_block_section(r),
        r.raw,
    )
}

/// The mod of what was ticked: by the namespace of its type, else by its class, else by the first
/// frame of a mod.
pub open spec fn mod_of_ticked(
    r: ReportView,
    type_id: Option<Seq<char>>,
    class: Option<Seq<char>>,
) -> Option<ModView> {
    let by_type = match type_id {
        Some(id) => mod_with_namespace(r.mods, id),
        None => None,
    };
    let by_class = match class {
        Some(class) => mod_owning(r.mods, class),
        None => None,
    };
    if by_type is Some {
        by_type
    } else if by_class is Some {
        by_class
    } else {
        first_mod(r)
    }
}

pub open spec fn ticked_mod(r: ReportView, t: TickView) -> Option<ModView> {
    mod_of_ticked(r, ticked_type(t), ticked_class(t))
}

fn find_ticked<'a>(r: &'a Report, type_id: &Option<String>, class: &Option<String>) -> (m: Option<
    &'a ModInfo,
>)
    ensures
        mod_view(m) == mod_of_ticked(r@, text_of(*type_id), text_of(*class)),
{
    if let Some(id) = type_id {
        let found = r.mod_for_id_like(id);
        if found.is_some() {
            return found;
        }
    }
    if let Some(class) = class {
        let found = r.mod_for_class(class);
        if found.is_some() {
            return found;
        }
    }
    mod_of_frame(r, r.first_mod_frame())
}

/// Whether it was a block entity that was ticked.
pub open spec fn ticked_block(r: ReportView, t: TickView) -> bool {
    ticking_block_section(r) || t.block_type is Some
}

pub open spec fn ticked_kind(r: ReportView, t: TickView) -> Seq<char> {
    if ticked_block(r, t) {
        "block entity"@
    } else {
        "entity"@
    }
}

pub open spec fn ticked_subject(r: ReportView, t: TickView) -> Seq<char> {
    text_or(ticked_type(t), ticked_kind(r, t))
}

pub open spec fn tick_culprit(r: ReportView, t: TickView) -> Option<Seq<char>> {
    match ticked_mod(r, t) {
        Some(m) => Some(mod_label(m)),
        None => match ticked_type(t) {
            Some(id) => Some(id + " (mod not identified)"@),
            None => None,
        },
    }
}

pub open spec fn tick_evidence(r: ReportView, t: TickView) -> Seq<Seq<char>> {
    let what = ticked_kind(r, t);
    let e = match (ticked_type(t), ticked_class(t)) {
        (Some(id), Some(class)) => no_lines().push(what + ": "@ + id + " ("@ + class + ")"@),
        (Some(id), None) => no_lines().push(what + ": "@ + id),
        _ => no_lines().push(
            "the report talks about a "@ + what + " but I could not read its type"@,
        ),
    };
    let e = match (group_in(t.exact, 1), block_position(t)) {
        (Some(pos), Some(bp)) => e.push("position: "@ + pos + " (block: "@ + bp + ")"@),
        (Some(pos), None) => e.push("position: "@ + pos),
        (None, Some(bp)) => e.push("position (block): "@ + bp),
        (None, None) => e,
    };
    let e = match root_cause_of(r.exceptions) {
        Some(exc) => e.push("exception: "@ + truncated(exc_text(exc), 200)),
        None => e,
    };
    let e = match mod_frame(r.frames, r.mods) {
        Some(f) => e.push(
            "mod frame: "@ + frame_site(f) + " (stacktrace line "@ + decimal(f.index) + ")"@,
        ),
        None => e,
    };
    with_entry_and_env(e, ticked_mod(r, t), r)
}

pub open spec fn tick_fix(r: ReportView, t: TickView) -> Seq<Seq<char>> {
    let id = id_or(ticked_mod(r, t), ticked_subject(r, t));
    let f = no_lines().push(
        "this is "@ + id + "'s bug: report it with this crash report attached"@,
    );
    let f = if ticked_block(r, t) {
        match block_position(t) {
            Some(bp) => f.push(
                "to get back in: break that block with /setblock "@ + bp
                    + " air (or mine it in creative)"@,
            ),
            None => f.push(
                "to get back in: find that mod's block and remove it from the world"@,
            ),
        }
    } else {
        match group_in(t.exact, 1) {
            Some(pos) => f.push(
                "to get back in: kill the entity near that spot with /kill @e[type="@ + text_or(
                    ticked_type(t),
                    "?"@,
                ) + ",distance=64] (it was at "@ + pos + ")"@,
            ),
            None => f.push("to get back in: kill it with /kill @e[type=<the id above>]"@),
        }
    };
    f.push("try another build of "@ + id + " (the previous one usually works)"@)
}

pub open spec fn tick_dev_tip(r: ReportView) -> Seq<Seq<char>> {
    let frame = mod_frame(r.frames, r.mods);
    let t = match frame {
        Some(f) => no_lines().push(
            "if you are a dev, open "@ + frame_site(f) + ": that is the line that throws"@,
        ),
        None => no_lines().push(
            "if you are a dev, read the tick method of the class in the frames above"@,
        ),
    };
    let t = t.push(
        "fields you fill from the world (level, owner, block entity state) go null when the chunk unloads or the world changes, and the same happens when the entity is spawned by /summon or by a structure. Re-read them from the level every tick, or guard the tick with a null check"@,
    );
    with_jar_advice(t, frame)
}

/// The diagnosis for a tick that throws.
pub open spec fn tick_diagnosis(r: ReportView, t: TickView) -> DiagnosisView {
    DiagnosisView {
        culprit: tick_culprit(r, t),
        cause: "Exception ticking "@ + ticked_kind(r, t) + ": "@ + ticked_subject(r, t)
            + " blows up in its tick"@,
        evidence: tick_evidence(r, t),
        fix: tick_fix(r, t),
        dev_tip: tick_dev_tip(r),
        confidence: if ticked_mod(r, t) is Some {
            Confidence::High
        } else {
            Confidence::Medium
        },
    }
}

/// What the rule finds: something where the report speaks of a tick.
pub open spec fn tick_verdict(r: ReportView) -> Option<DiagnosisView> {
    if tick_failed(r) {
        Some(tick_diagnosis(r, tick_signs(r.raw)))
    } else {
        None
    }
}

/// Names the mod whose entity or block entity throws.
pub fn diagnose_tick(r: &Report, t: &TickSigns) -> (d: Diagnosis)
    ensures
        d@ == tick_diagnosis(r@, t@),
{
    let type_id = part_ticked(t, 1);
    let class = part_ticked(t, 2);
    let exact = group_text(&t.exact, 1);
    let block = position_of_block(t);
    let culprit = find_ticked(r, &type_id, &class);
    let is_block = r.section("Block entity being ticked").is_some() || t.block_type.is_some();
    let what = if is_block {
        "block entity"
    } else {
        "entity"
    };
    let subject = string_or(&type_id, what);
    let named = match culprit {
        Some(m) => Some(m.label()),
        None => match &type_id {
            Some(id) => Some(cat2(id, " (mod not identified)")),
            None => None,
        },
    };
    let cause = cat5("Exception ticking ", what, ": ", &subject, " blows up in its tick");
    let confidence = if culprit.is_some() {
        Confidence::High
    } else {
        Confidence::Medium
    };
    let mod_id = id_text(culprit, &subject);
    let frame = r.first_mod_frame();
    let mut evidence = new_lines();
    let mut fix = new_lines();
    let mut dev_tip = new_lines();

    match (&type_id, &class) {
        (Some(id), Some(class)) => push_text(
            &mut evidence,
            cat6(what, ": ", id, " (", class, ")"),
        ),
        (Some(id), None) => push_text(&mut evidence, cat3(what, ": ", id)),
        _ => push_text(
            &mut evidence,
            cat3("the report talks about a ", what, " but I could not read its type"),
        ),
    }
    match (&exact, &block) {
        (Some(pos), Some(bp)) => push_text(
            &mut evidence,
            cat5("position: ", pos, " (block: ", bp, ")"),
        ),
        (Some(pos), None) => push_text(&mut evidence, cat2("position: ", pos)),
        (None, Some(bp)) => push_text(&mut evidence, cat2("position (block): ", bp)),
        (None, None) => {},
    }
    if let Some(e) = r.root_cause() {
        push_text(&mut evidence, cat2("exception: ", &truncate(&e.text(), 200)));
    }
    if let Some(f) = frame {
        push_text(
            &mut evidence,
            cat5(
                "mod frame: ",
                &f.site(),
                " (stacktrace line ",
                &decimal_text(f.index as u64),
                ")",
            ),
        );
    }
    push_entry_and_env(&mut evidence, culprit, r);

    push_text(
        &mut fix,
        cat3("this is ", &mod_id, "'s bug: report it with this crash report attached"),
    );
    if is_block {
        match &block {
            Some(bp) => push_text(
                &mut fix,
                cat3(
                    "to get back in: break that block with /setblock ",
                    bp,
                    " air (or mine it in creative)",
                ),
            ),
            None => push_text(
                &mut fix,
                "to get back in: find that mod's block and remove it from the world".to_owned(),
            ),
        }
    } else {
        match &exact {
            Some(pos) => push_text(
                &mut fix,
                cat5(
                    "to get back in: kill the entity near that spot with /kill @e[type=",
                    &string_or(&type_id, "?"),
                    ",distance=64] (it was at ",
                    pos,
                    ")",
                ),
            ),
            None => push_text(
                &mut fix,
                "to get back in: kill it with /kill @e[type=<the id above>]".to_owned(),
            ),
        }
    }
    push_text(
        &mut fix,
        cat3("try another build of ", &mod_id, " (the previous one usually works)"),
    );

    match frame {
        Some(f) => push_text(
            &mut dev_tip,
            cat3("if you are a dev, open ", &f.site(), ": that is the line that throws"),
        ),
        None => push_text(
            &mut dev_tip,
            "if you are a dev, read the tick method of the class in the frames above".to_owned(),
        ),
    }
    push_text(
        &mut dev_tip,
        "fields you fill from the world (level, owner, block entity state) go null when the chunk unloads or the world changes, and the same happens when the entity is spawned by /summon or by a structure. Re-read them from the level every tick, or guard the tick with a null check".to_owned(),
    );
    push_jar_hint(&mut dev_tip, frame);
    Diagnosis { culprit: named, cause, evidence, fix, dev_tip, confidence }
}

pub fn check_tick(r: &Report) -> (d: Option<Diagnosis>)
    ensures
        verdict_of(d) == tick_verdict(r@),
{
    let description = to_lower(&string_or(&r.description, ""));
    let entity_section = r.section("Entity being ticked").is_some();
    let block_section = r.section("Block entity being ticked").is_some();
    if !speaks_of_tick(&description, entity_section, block_section, &r.raw) {
        return None;
    }
    let raw: &str = &r.raw;
    let signs = TickSigns {
        entity: Pattern::new(ENTITY_TYPE).captures(raw),
        block_type: Pattern::new(BLOCK_TYPE).captures(raw),
        block_name: Pattern::new(BLOCK_NAME).captures(raw),
        exact: Pattern::new(EXACT_LOCATION).captures(raw),
        block: Pattern::new(BLOCK_LOCATION).captures(raw),
    };
    Some(diagnose_tick(r, &signs))
}

} // verus!

//! What several rules say.
use vstd::prelude::*;
use crate::model::{
    env_text, mod_detail, Diagnosis, DiagnosisView, FrameView, ModInfo, ModView, Report, ReportView,
    StackFrame,
};
use crate::number::{decimal, decimal_text};
use crate::text::{
    cat2, cat3, contains, first_texts, has, join, joined, lowercase, push_text, texts, to_lower,
};

verus! {

/// The contents of what a rule finds.
pub open spec fn verdict_of(d: Option<Diagnosis>) -> Option<DiagnosisView> {
    match d {
        Some(d) => Some(d@),
        None => None,
    }
}

/// The contents of a mod that was looked up.
pub open spec fn mod_view(m: Option<&ModInfo>) -> Option<ModView> {
    match m {
        Some(m) => Some(m@),
        None => None,
    }
}

/// The contents of a frame that was looked up.
pub open spec fn frame_view(f: Option<&StackFrame>) -> Option<FrameView> {
    match f {
        Some(f) => Some(f@),
        None => None,
    }
}

pub open spec fn no_lines() -> Seq<Seq<char>> {
    Seq::empty()
}

pub(crate) fn new_lines() -> (r: Vec<String>)
    ensures
        texts(r@) == no_lines(),
{
    let r: Vec<String> = Vec::new();
    assert(texts(r@) =~= no_lines());
    r
}

/// The lines with an entry of the mod list, if there is one, and the environment behind them.
pub open spec fn with_entry_and_env(
    lines: Seq<Seq<char>>,
    entry: Option<ModView>,
    r: ReportView,
) -> Seq<Seq<char>> {
    let lines = match entry {
        Some(m) => lines.push("mod entry: "@ + mod_detail(m)),
        None => lines,
    };
    lines.push("environment: "@ + env_text(r))
}

pub(crate) fn push_entry_and_env(lines: &mut Vec<String>, entry: Option<&ModInfo>, r: &Report)
    ensures
        texts(final(lines)@) == with_entry_and_env(texts(old(lines)@), mod_view(entry), r@),
{
    if let Some(m) = entry {
        push_text(lines, cat2("mod entry: ", &m.detail()));
    }
    push_text(lines, cat2("environment: ", &r.env_summary()));
}

/// Whether a jar, by its name in lower case, belongs to the game, its loader or a library that they
/// bring.
pub open spec fn platform_jar_lowered(lower: Seq<char>) -> bool {
    ||| has(lower, "client-"@)
    ||| has(lower, "server-"@)
    ||| has(lower, "forge-"@)
    ||| has(lower, "-srg"@)
    ||| has(lower, "authlib"@)
    ||| has(lower, "eventbus"@)
    ||| has(lower, "modlauncher"@)
    ||| has(lower, "javafml"@)
    ||| has(lower, "bootstraplauncher"@)
    ||| has(lower, "mixin-"@)
    ||| has(lower, "asm-"@)
    ||| has(lower, "lwjgl"@)
}

pub fn is_platform_jar_lowered(lower: &str) -> (r: bool)
    ensures
        r == platform_jar_lowered(lower@),
{
    contains(lower, "client-") || contains(lower, "server-") || contains(lower, "forge-")
        || contains(lower, "-srg") || contains(lower, "authlib") || contains(lower, "eventbus")
        || contains(lower, "modlauncher") || contains(lower, "javafml") || contains(
        lower,
        "bootstraplauncher",
    ) || contains(lower, "mixin-") || contains(lower, "asm-") || contains(lower, "lwjgl")
}

/// Whether a jar belongs to the platform, whatever the case of its name.
pub open spec fn platform_jar(name: Seq<char>) -> bool {
    platform_jar_lowered(lowercase(name))
}

pub fn is_platform_jar(name: &str) -> (r: bool)
    ensures
        r == platform_jar(name@),
{
    is_platform_jar_lowered(&to_lower(name))
}

/// How to read the class of a frame, if it comes from a mod's jar.
pub open spec fn jar_advice(frame: Option<FrameView>) -> Option<Seq<char>> {
    match frame {
        Some(f) => match f.jar {
            Some(jar) => if platform_jar(jar) {
                None
            } else {
                Some(
                    "to read that class: java -jar vineflower.jar -dgs=1 "@ + jar
                        + " out/ (Vineflower, or FernFlower), or Ctrl+click the class in IntelliJ with the Minecraft Development plugin"@,
                )
            },
            None => None,
        },
        None => None,
    }
}

/// The lines with the advice on a frame's jar behind them.
pub open spec fn with_jar_advice(lines: Seq<Seq<char>>, frame: Option<FrameView>) -> Seq<
    Seq<char>,
> {
    match jar_advice(frame) {
        Some(s) => lines.push(s),
        None => lines,
    }
}

pub fn jar_hint(frame: Option<&StackFrame>) -> (r: Option<String>)
    ensures
        match r {
            Some(s) => jar_advice(frame_view(frame)) == Some(s@),
            None => jar_advice(frame_view(frame)) is None,
        },
{
    match frame {
        Some(f) => match &f.jar {
            Some(jar) => if is_platform_jar(jar) {
                None
            } else {
                Some(
                    cat3(
                        "to read that class: java -jar vineflower.jar -dgs=1 ",
                        jar,
                        " out/ (Vineflower, or FernFlower), or Ctrl+click the class in IntelliJ with the Minecraft Development plugin",
                    ),
                )
            },
            None => None,
        },
        None => None,
    }
}

pub(crate) fn push_jar_hint(lines: &mut Vec<String>, frame: Option<&StackFrame>)
    ensures
        texts(final(lines)@) == with_jar_advice(texts(old(lines)@), frame_view(frame)),
{
    if let Some(s) = jar_hint(frame) {
        push_text(lines, s);
    }
}

/// The first `max` items with commas between them, and how many more there are.
pub open spec fn previewed(items: Seq<Seq<char>>, max: nat) -> Seq<char> {
    if items.len() > max {
        joined(items.take(max as int), ", "@) + " and "@ + decimal((items.len() - max) as nat)
            + " more"@
    } else {
        joined(items, ", "@)
    }
}

pub fn preview(items: &Vec<String>, max: usize) -> (r: String)
    ensures
        r@ == previewed(texts(items@), max as nat),
{
    let shown = join(&first_texts(items, max), ", ");
    if items.len() > max {
        let mut r = shown;
        r.append(" and ");
        r.append(&decimal_text((items.len() - max) as u64));
        r.append(" more");
        r
    } else {
        assert(texts(items@).take(items.len() as int) =~= texts(items@));
        shown
    }
}

} // verus!

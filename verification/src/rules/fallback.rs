//! What can be said of a crash that no rule knows.
use vstd::prelude::*;
use crate::model::{
    env_text, exc_simple, exc_text, frame_site, frames_of, loader_label, mod_detail, mod_label,
    own_frame, platform_class, root_cause_of, Confidence, Diagnosis, DiagnosisView, FrameView,
    ModView, Report, ReportView, StackFrame,
};
use crate::number::{decimal, decimal_text};
use crate::rules::common::{
    frame_view, mod_view, new_lines, no_lines, push_jar_hint, with_jar_advice,
};
use crate::rules::symbol::{frame_mod, mod_of_frame};
use crate::text::{cat2, cat3, cat4, cat5, first_texts, holds, push_text, texts};

verus! {

/// How many frames are shown.
pub const SHOWN_FRAMES: usize = 5;

/// The sites of a list of frames.
pub open spec fn sites(frames: Seq<FrameView>) -> Seq<Seq<char>> {
    frames.map_values(|f: FrameView| frame_site(f))
}

/// The frames of classes outside the platform, each site once, where it first stands.
pub open spec fn own_sites(frames: Seq<FrameView>) -> Seq<FrameView>
    decreases frames.len(),
{
    if frames.len() == 0 {
        Seq::empty()
    } else {
        let before = own_sites(frames.drop_last());
        let f = frames.last();
        if platform_class(f.class) || sites(before).contains(frame_site(f)) {
            before
        } else {
            before.push(f)
        }
    }
}

/// The first `SHOWN_FRAMES` of a list of lines.
pub open spec fn shown(lines: Seq<Seq<char>>) -> Seq<Seq<char>> {
    if lines.len() > SHOWN_FRAMES {
        lines.take(SHOWN_FRAMES as int)
    } else {
        lines
    }
}

pub open spec fn numbered_line(f: FrameView) -> Seq<char> {
    "  "@ + frame_site(f) + " (stacktrace line "@ + decimal(f.index) + ")"@
}

pub open spec fn plain_line(f: FrameView) -> Seq<char> {
    "  "@ + frame_site(f)
}

/// The frames worth a look, a line each: those outside the platform with their numbers, else the
/// first of the trace.
pub open spec fn frame_lines(frames: Seq<FrameView>) -> Seq<Seq<char>> {
    if own_sites(frames).len() == 0 {
        no_lines().push("first frames of the stacktrace:"@) + shown(
            frames.map_values(|f: FrameView| plain_line(f)),
        )
    } else {
        no_lines().push(
            "first frames that are not Minecraft/Forge (the mod is usually there):"@,
        ) + shown(own_sites(frames).map_values(|f: FrameView| numbered_line(f)))
    }
}

fn first_lines(lines: &Vec<String>) -> (r: Vec<String>)
    ensures
        texts(r@) == shown(texts(lines@)),
{
    assert(texts(lines@).take(lines.len() as int) =~= texts(lines@));
    first_texts(lines, SHOWN_FRAMES)
}

fn plain_lines(frames: &Vec<StackFrame>) -> (r: Vec<String>)
    ensures
        texts(r@) == frames_of(frames@).map_values(|f: FrameView| plain_line(f)),
{
    let ghost all = frames_of(frames@).map_values(|f: FrameView| plain_line(f));
    let mut r = new_lines();
    assert(texts(r@) =~= all.take(0));
    let mut i: usize = 0;
    while i < frames.len()
        invariant
            i <= frames.len(),
            all == frames_of(frames@).map_values(|f: FrameView| plain_line(f)),
            texts(r@) == all.take(i as int),
        decreases frames.len() - i,
    {
        push_text(&mut r, cat2("  ", &frames[i].site()));
        assert(texts(r@) =~= all.take(i + 1));
        i = i + 1;
    }
    assert(all.take(i as int) =~= all);
    r
}

fn numbered_lines(frames: &Vec<StackFrame>) -> (r: Vec<String>)
    ensures
        texts(r@) == own_sites(frames_of(frames@)).map_values(|f: FrameView| numbered_line(f)),
{
    let ghost all = frames_of(frames@);
    let mut seen = new_lines();
    let mut r = new_lines();
    assert(texts(seen@) =~= sites(own_sites(all.take(0))));
    assert(texts(r@) =~= own_sites(all.take(0)).map_values(|f: FrameView| numbered_line(f)));
    let mut i: usize = 0;
    while i < frames.len()
        invariant
            i <= frames.len(),
            all == frames_of(frames@),
            texts(seen@) == sites(own_sites(all.take(i as int))),
            texts(r@) == own_sites(all.take(i as int)).map_values(
                |f: FrameView| numbered_line(f),
            ),
        decreases frames.len() - i,
    {
        let f = &frames[i];
        let site = f.site();
        let ghost before = own_sites(all.take(i as int));
        assert(all.take(i + 1).drop_last() =~= all.take(i as int));
        assert(all.take(i + 1).last() == f@);
        if !f.is_platform() && !holds(&seen, &site) {
            push_text(
                &mut r,
                cat5("  ", &site, " (stacktrace line ", &decimal_text(f.index as u64), ")"),
            );
            push_text(&mut seen, site);
            assert(texts(seen@) =~= sites(before.push(f@)));
            assert(texts(r@) =~= before.push(f@).map_values(|f: FrameView| numbered_line(f)));
        }
        i = i + 1;
    }
    assert(all.take(i as int) =~= all);
    r
}

fn push_all(v: &mut Vec<String>, more: Vec<String>)
    ensures
        texts(final(v)@) == texts(old(v)@) + texts(more@),
{
    let ghost start = texts(v@);
    assert(texts(v@) =~= start + texts(more@).take(0));
    let mut i: usize = 0;
    while i < more.len()
        invariant
            i <= more.len(),
            texts(v@) == start + texts(more@).take(i as int),
        decreases more.len() - i,
    {
        push_text(v, more[i].clone());
        assert(texts(v@) =~= start + texts(more@).take(i + 1));
        i = i + 1;
    }
    assert(texts(more@).take(i as int) =~= texts(more@));
}

fn push_frame_lines(lines: &mut Vec<String>, frames: &Vec<StackFrame>)
    ensures
        texts(final(lines)@) == texts(old(lines)@) + frame_lines(frames_of(frames@)),
{
    let ghost start = texts(lines@);
    let ghost all = frames_of(frames@);
    let own = numbered_lines(frames);
    if own.len() == 0 {
        assert(texts(own@).len() == own_sites(all).len());
        let plain = first_lines(&plain_lines(frames));
        push_text(lines, "first frames of the stacktrace:".to_owned());
        push_all(lines, plain);
    } else {
        assert(texts(own@).len() == own_sites(all).len());
        push_text(
            lines,
            "first frames that are not Minecraft/Forge (the mod is usually there):".to_owned(),
        );
        push_all(lines, first_lines(&own));
    }
    assert(texts(lines@) =~= start + frame_lines(all));
}

/// The mod whose package the first frame outside the platform has.
pub open spec fn guessed_mod(r: ReportView) -> Option<ModView> {
    frame_mod(r, own_frame(r.frames))
}

pub open spec fn guess_culprit(r: ReportView) -> Option<Seq<char>> {
    match guessed_mod(r) {
        Some(m) => Some(mod_label(m) + " (unconfirmed)"@),
        None => None,
    }
}

pub open spec fn guess_cause(r: ReportView) -> Seq<char> {
    match (own_frame(r.frames), guessed_mod(r)) {
        (Some(f), Some(m)) =>
            "crashdoctor doesn't know (っ◞‸◟ c): no rule matched this crash, so the verdict comes from the package names in the stacktrace. "@
            + f.class + " belongs to "@ + m.id,
        _ =>
            "crashdoctor doesn't know (っ◞‸◟ c): no rule matched this crash, and no mod package shows up in the stacktrace. The exception is "@
            + match root_cause_of(r.exceptions) {
            Some(e) => exc_simple(e),
            None => "no readable exception"@,
        },
    }
}

pub open spec fn guess_evidence(r: ReportView) -> Seq<Seq<char>> {
    let e = match guessed_mod(r) {
        Some(m) => no_lines().push("mod entry: "@ + mod_detail(m)),
        None => no_lines(),
    };
    let e = e + frame_lines(r.frames);
    let e = if r.frames.len() == 0 {
        e.push("this report has no readable stacktrace (truncated?)"@)
    } else {
        e
    };
    let e = if r.exceptions.len() == 0 {
        e
    } else {
        e.push("exception: "@ + exc_text(r.exceptions[0]))
    };
    e.push("environment: "@ + env_text(r))
}

pub open spec fn guess_fix(r: ReportView) -> Seq<Seq<char>> {
    if guessed_mod(r) is Some {
        no_lines().push(
            "run "@ + loader_label(r.loader)
                + " plus that one mod alone to confirm it is the one crashing"@,
        ).push(
            "the frames above are what a mod author needs: open an issue with this crash report"@,
        ).push("check for a newer build of that mod, this crash may already be fixed"@)
    } else {
        no_lines().push(
            "this looks like a vanilla/Forge crash: check your Java version and update Forge"@,
        ).push(
            "on a modpack, paste the report in the pack's support channel: the frames above are the only lead"@,
        )
    }
}

pub open spec fn guess_dev_tip(r: ReportView) -> Seq<Seq<char>> {
    match own_frame(r.frames) {
        Some(f) => with_jar_advice(
            no_lines().push(
                "if you are a dev, open "@ + frame_site(f)
                    + ": that is the first frame of your code in the trace"@,
            ).push(
                "if the exception comes out of vanilla code, check what you pass into it: a null, an object from the other side (client versus server), or state read from an unloaded chunk"@,
            ),
            Some(f),
        ),
        None => if r.frames.len() == 0 {
            no_lines()
        } else {
            no_lines().push(
                "if you are a dev, there is no mod code in this stacktrace, so the crash is in vanilla or Forge. Compare the first frames with your Java version and search the exception text in the Forge issue tracker"@,
            )
        },
    }
}

/// The guess that the package names in the stack trace allow.
pub open spec fn guess(r: ReportView) -> DiagnosisView {
    DiagnosisView {
        culprit: guess_culprit(r),
        cause: guess_cause(r),
        evidence: guess_evidence(r),
        fix: guess_fix(r),
        dev_tip: guess_dev_tip(r),
        confidence: Confidence::Low,
    }
}

/// Guesses from the package names in the stack trace.
pub fn guess_from_frames(r: &Report) -> (d: Diagnosis)
    ensures
        d@ == guess(r@),
{
    let frame = r.first_own_frame();
    let owner = mod_of_frame(r, frame);
    assert(frame_view(frame) == own_frame(r@.frames));
    assert(mod_view(owner) == guessed_mod(r@));
    let culprit = match owner {
        Some(m) => Some(cat2(&m.label(), " (unconfirmed)")),
        None => None,
    };
    let cause = match (frame, owner) {
        (Some(f), Some(m)) => cat4(
            "crashdoctor doesn't know (っ◞‸◟ c): no rule matched this crash, so the verdict comes from the package names in the stacktrace. ",
            &f.class,
            " belongs to ",
            &m.id,
        ),
        _ => cat2(
            "crashdoctor doesn't know (っ◞‸◟ c): no rule matched this crash, and no mod package shows up in the stacktrace. The exception is ",
            match r.root_cause() {
                Some(e) => e.simple(),
                None => "no readable exception",
            },
        ),
    };
    let mut evidence = new_lines();
    let mut fix = new_lines();
    let mut dev_tip = new_lines();

    if let Some(m) = owner {
        push_text(&mut evidence, cat2("mod entry: ", &m.detail()));
    }
    push_frame_lines(&mut evidence, &r.frames);
    if r.frames.len() == 0 {
        push_text(
            &mut evidence,
            "this report has no readable stacktrace (truncated?)".to_owned(),
        );
    }
    if r.exceptions.len() > 0 {
        push_text(&mut evidence, cat2("exception: ", &r.exceptions[0].text()));
    }
    push_text(&mut evidence, cat2("environment: ", &r.env_summary()));

    if owner.is_some() {
        push_text(
            &mut fix,
            cat3(
                "run ",
                r.loader.label(),
                " plus that one mod alone to confirm it is the one crashing",
            ),
        );
        push_text(
            &mut fix,
            "the frames above are what a mod author needs: open an issue with this crash report".to_owned(),
        );
        push_text(
            &mut fix,
            "check for a newer build of that mod, this crash may already be fixed".to_owned(),
        );
    } else {
        push_text(
            &mut fix,
            "this looks like a vanilla/Forge crash: check your Java version and update Forge".to_owned(),
        );
        push_text(
            &mut fix,
            "on a modpack, paste the report in the pack's support channel: the frames above are the only lead".to_owned(),
        );
    }
    if let Some(f) = frame {
        push_text(
            &mut dev_tip,
            cat3(
                "if you are a dev, open ",
                &f.site(),
                ": that is the first frame of your code in the trace",
            ),
        );
        push_text(
            &mut dev_tip,
            "if the exception comes out of vanilla code, check what you pass into it: a null, an object from the other side (client versus server), or state read from an unloaded chunk".to_owned(),
        );
        push_jar_hint(&mut dev_tip, frame);
    } else if r.frames.len() > 0 {
        push_text(
            &mut dev_tip,
            "if you are a dev, there is no mod code in this stacktrace, so the crash is in vanilla or Forge. Compare the first frames with your Java version and search the exception text in the Forge issue tracker".to_owned(),
        );
    }
    Diagnosis { culprit, cause, evidence, fix, dev_tip, confidence: Confidence::Low }
}

} // verus!

//! The game ran out of memory.
use vstd::prelude::*;
use crate::model::{
    count_mods, exc_text, exception_named, Confidence, Diagnosis, DiagnosisView, Exc, ExcView,
    Report, ReportView,
};
use crate::number::{decimal, decimal_text};
use crate::rules::common::{new_lines, no_lines, verdict_of};
use crate::text::{cat2, cat3, cat5, contains, has, lowercase, push_text, text_or, to_lower};

verus! {

/// What the error says.
pub open spec fn oom_detail(exc: ExcView) -> Seq<char> {
    text_or(exc.message, "no message"@)
}

/// Whether it was not the heap that ran out, but the space for classes, by what the error says in
/// lower case.
pub open spec fn out_of_metaspace(lower: Seq<char>) -> bool {
    has(lower, "metaspace"@) || has(lower, "compressed class"@)
}

/// The heap limit in megabytes; Java's own where the report gives none.
pub open spec fn heap_now(r: ReportView) -> u32 {
    match r.xmx_mb {
        Some(v) => v,
        None => 2048,
    }
}

/// The heap limit to try next.
pub open spec fn heap_next(current: u32) -> u32 {
    if current < 4096 {
        4096
    } else if current < 8192 {
        8192
    } else if current > u32::MAX - 4096 {
        u32::MAX
    } else {
        (current + 4096) as u32
    }
}

pub open spec fn mb(n: u32) -> Seq<char> {
    decimal(n as nat)
}

pub open spec fn oom_cause(exc: ExcView, metaspace: bool) -> Seq<char> {
    if metaspace {
        "OutOfMemoryError ("@ + oom_detail(exc)
            + "). The JVM ran out of Metaspace, the space that holds class metadata"@
    } else {
        "OutOfMemoryError ("@ + oom_detail(exc)
            + "). The heap hit its ceiling, so the game ran out of RAM"@
    }
}

pub open spec fn oom_evidence(r: ReportView, exc: ExcView) -> Seq<Seq<char>> {
    let e = no_lines().push("exception: "@ + exc_text(exc));
    let e = match r.memory_line {
        Some(line) => e.push("memory at crash: "@ + line),
        None => e,
    };
    let e = if count_mods(r.mods) > 0 {
        e.push(decimal(count_mods(r.mods)) + " mods loaded"@)
    } else {
        e
    };
    match r.xmx_mb {
        Some(v) => e.push("-Xmx now: "@ + mb(v) + " MB (from JVM Flags)"@),
        None => e.push("no -Xmx in the JVM Flags"@),
    }
}

pub open spec fn oom_fix(r: ReportView, metaspace: bool) -> Seq<Seq<char>> {
    let now = heap_now(r);
    let next = heap_next(now);
    if metaspace {
        no_lines().push(
            "raise the class metadata space: -XX:MaxMetaspaceSize=1024m (or drop mods)"@,
        ).push(
            "if it is already high, too many mods are generating classes: remove the ones you do not use"@,
        )
    } else if now >= 6144 {
        no_lines().push(
            "you already had "@ + mb(now)
                + "M of heap: hunt the leak (a mod holding chunks or entities) instead of raising it"@,
        ).push("if you still want to try, go to "@ + mb(next) + "M with -Xmx"@ + mb(next) + "M"@)
    } else {
        no_lines().push(
            "raise -Xmx from "@ + mb(now) + "M to "@ + mb(next)
                + "M (launcher -> Installations -> Edit -> JVM arguments)"@,
        ).push(
            "with that many mods, "@ + mb(next) + "M is a sane starting point for 1.20.1"@,
        )
    }
}

pub open spec fn oom_dev_tip(r: ReportView, metaspace: bool) -> Seq<Seq<char>> {
    if metaspace {
        no_lines().push(
            "if you are a dev, Metaspace runs out when too many classes get generated at runtime. Look for runtime class generation, a huge annotation set, or two mods shipping the same library"@,
        )
    } else {
        no_lines().push(
            "if you are a dev, the heap size belongs to the pack. Only dig into your code if it still dies with "@
                + mb(heap_next(heap_now(r)))
                + "M or more, because then it is a leak: static maps keyed by Level or Entity, listeners or tasks you register per entity and never remove, and caches that never expire"@,
        ).push(
            "to see what holds the memory: jcmd <pid> GC.class_histogram, then jcmd <pid> GC.heap_dump dump.hprof and open the dump in MAT or IntelliJ"@,
        )
    }
}

/// The diagnosis for an error, of which `lower` gives what it says in lower case.
pub open spec fn oom_diagnosis(r: ReportView, exc: ExcView, lower: Seq<char>) -> DiagnosisView {
    let metaspace = out_of_metaspace(lower);
    DiagnosisView {
        culprit: Some("no mod: the JVM ran out of memory"@),
        cause: oom_cause(exc, metaspace),
        evidence: oom_evidence(r, exc),
        fix: oom_fix(r, metaspace),
        dev_tip: oom_dev_tip(r, metaspace),
        confidence: Confidence::High,
    }
}

/// What the rule finds: something where the report names an `OutOfMemoryError`.
pub open spec fn oom_verdict(r: ReportView) -> Option<DiagnosisView> {
    match exception_named(r.exceptions, "OutOfMemoryError"@) {
        Some(exc) => Some(oom_diagnosis(r, exc, lowercase(oom_detail(exc)))),
        None => None,
    }
}

fn next_heap(current: u32) -> (r: u32)
    ensures
        r == heap_next(current),
{
    if current < 4096 {
        4096
    } else if current < 8192 {
        8192
    } else {
        current.saturating_add(4096)
    }
}

fn detail_of(exc: &Exc) -> (r: String)
    ensures
        r@ == oom_detail(exc@),
{
    match &exc.message {
        Some(m) => m.clone(),
        None => "no message".to_owned(),
    }
}

/// Says what to do about an error, of which `lower` gives what it says in lower case.
pub fn diagnose_oom(r: &Report, exc: &Exc, lower: &str) -> (d: Diagnosis)
    ensures
        d@ == oom_diagnosis(r@, exc@, lower@),
{
    let detail = detail_of(exc);
    let metaspace = contains(lower, "metaspace") || contains(lower, "compressed class");
    let now: u32 = match r.xmx_mb {
        Some(v) => v,
        None => 2048,
    };
    let current = decimal_text(now as u64);
    let target = decimal_text(next_heap(now) as u64);
    let mut evidence = new_lines();
    let mut fix = new_lines();
    let mut dev_tip = new_lines();
    let cause = if metaspace {
        cat3(
            "OutOfMemoryError (",
            &detail,
            "). The JVM ran out of Metaspace, the space that holds class metadata",
        )
    } else {
        cat3(
            "OutOfMemoryError (",
            &detail,
            "). The heap hit its ceiling, so the game ran out of RAM",
        )
    };
    push_text(&mut evidence, cat2("exception: ", &exc.text()));
    if let Some(line) = &r.memory_line {
        push_text(&mut evidence, cat2("memory at crash: ", line));
    }
    let count: usize = r.mod_count();
    if count > 0 {
        push_text(&mut evidence, cat2(&decimal_text(count as u64), " mods loaded"));
    }
    match r.xmx_mb {
        Some(v) => push_text(
            &mut evidence,
            cat3("-Xmx now: ", &decimal_text(v as u64), " MB (from JVM Flags)"),
        ),
        None => push_text(&mut evidence, "no -Xmx in the JVM Flags".to_owned()),
    }
    if metaspace {
        push_text(
            &mut fix,
            "raise the class metadata space: -XX:MaxMetaspaceSize=1024m (or drop mods)".to_owned(),
        );
        push_text(
            &mut fix,
            "if it is already high, too many mods are generating classes: remove the ones you do not use".to_owned(),
        );
    } else if now >= 6144 {
        push_text(
            &mut fix,
            cat3(
                "you already had ",
                &current,
                "M of heap: hunt the leak (a mod holding chunks or entities) instead of raising it",
            ),
        );
        push_text(
            &mut fix,
            cat5("if you still want to try, go to ", &target, "M with -Xmx", &target, "M"),
        );
    } else {
        push_text(
            &mut fix,
            cat5(
                "raise -Xmx from ",
                &current,
                "M to ",
                &target,
                "M (launcher -> Installations -> Edit -> JVM arguments)",
            ),
        );
        push_text(
            &mut fix,
            cat3("with that many mods, ", &target, "M is a sane starting point for 1.20.1"),
        );
    }
    if metaspace {
        push_text(
            &mut dev_tip,
            "if you are a dev, Metaspace runs out when too many classes get generated at runtime. Look for runtime class generation, a huge annotation set, or two mods shipping the same library".to_owned(),
        );
    } else {
        push_text(
            &mut dev_tip,
            cat3(
                "if you are a dev, the heap size belongs to the pack. Only dig into your code if it still dies with ",
                &target,
                "M or more, because then it is a leak: static maps keyed by Level or Entity, listeners or tasks you register per entity and never remove, and caches that never expire",
            ),
        );
        push_text(
            &mut dev_tip,
            "to see what holds the memory: jcmd <pid> GC.class_histogram, then jcmd <pid> GC.heap_dump dump.hprof and open the dump in MAT or IntelliJ".to_owned(),
        );
    }
    Diagnosis {
        culprit: Some("no mod: the JVM ran out of memory".to_owned()),
        cause,
        evidence,
        fix,
        dev_tip,
        confidence: Confidence::High,
    }
}

pub fn check_oom(r: &Report) -> (d: Option<Diagnosis>)
    ensures
        verdict_of(d) == oom_verdict(r@),
{
    match r.exception("OutOfMemoryError") {
        Some(exc) => Some(diagnose_oom(r, exc, &to_lower(&detail_of(exc)))),
        None => None,
    }
}

} // verus!

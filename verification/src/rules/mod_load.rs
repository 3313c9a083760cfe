//! A mod failed while the loader was loading it.
use vstd::prelude::*;
use crate::model::{
    frame_site, mod_frame, mod_label, mod_owning, mod_with_id, Confidence, Diagnosis, DiagnosisView,
    ModView, Report, ReportView,
};
use crate::pattern::{
    captures_of, field_in, field_text, group_in, group_text, groups_of, Groups, Pattern,
};
use crate::rules::common::{
    new_lines, no_lines, push_entry_and_env, push_jar_hint, verdict_of, with_entry_and_env,
    with_jar_advice,
};
use crate::rules::symbol::{
    label_or, label_text, missing_class_from, missing_class_made, string_or, MISSING_CLASS,
};
use crate::text::{
    after_last, ascii_lowered, before_last, cat2, cat3, cat4, cat5, cat6, contains, cut_last, has,
    lowercase, push_text, same, strip_suffixes, tail, text_of, text_or, texts, to_ascii_lower,
    to_lower, truncate, truncated, without_suffixes, CharSet,
};

verus! {

pub const FAILURE_MESSAGE: &'static str = r"(?m)^[ \t]*Failure message:\s*(.+?)\s*$";

pub const FAILURE_DETAIL: &'static str = r"(?m)^[ \t]*Failure message:.*\n[ \t]+(\S.*?)\s*$";

pub const MOD_FILE: &'static str = r"(?m)^[ \t]*Mod File:\s*(.+?)\s*$";

pub const EXCEPTION_MESSAGE: &'static str = r"(?m)^[ \t]*Exception message:\s*(.+?)\s*$";

pub const ISSUE_URL: &'static str = r"(?m)^[ \t]*Mod Issue URL:\s*(.+?)\s*$";

pub const PAREN_ID: &'static str = r"\(([a-z][\w\-]*)\)";

pub const EVENT_CLASS: &'static str = r"event class\s+([\w.$]+)";

pub const BUS_IFACE: &'static str = r"base type interface\s+([\w.$]+)";

pub const DUPLICATE_MOD: &'static str = r"(?i)duplicate mod";

pub const MISSING_DEPENDENCY: &'static str = r"(?i)Mod ID:\s*'?([\w\-]+)'?,\s*Requested by:\s*'?([\w\-]+)'?(?:,\s*Expected range:\s*'?([^',]*)'?)?";

pub const REQUIRES: &'static str = r"(?i)requires\s+([\w\-]+)\s*([\[\(][^\]\)]*[\]\)])?";

/// Why a mod did not load.
pub enum ModFailure {
    WrongBus { event: String, iface: String },
    Duplicate,
    MissingDependency { dep: String, range: Option<String> },
    MissingClass(String),
    Other(String),
}

pub enum FailureView {
    WrongBus { event: Seq<char>, iface: Seq<char> },
    Duplicate,
    MissingDependency { dep: Seq<char>, range: Option<Seq<char>> },
    MissingClass(Seq<char>),
    Other(Seq<char>),
}

impl View for ModFailure {
    type V = FailureView;

    open spec fn view(&self) -> FailureView {
        match self {
            ModFailure::WrongBus { event, iface } => FailureView::WrongBus {
                event: event@,
                iface: iface@,
            },
            ModFailure::Duplicate => FailureView::Duplicate,
            ModFailure::MissingDependency { dep, range } => FailureView::MissingDependency {
                dep: dep@,
                range: text_of(*range),
            },
            ModFailure::MissingClass(class) => FailureView::MissingClass(class@),
            ModFailure::Other(text) => FailureView::Other(text@),
        }
    }
}

/// What an error text holds.
pub struct FailureSigns {
    /// The text in lower case.
    pub lower: String,
    /// The class of an event.
    pub event: Option<Groups>,
    /// The interface that an event bus asks for.
    pub iface: Option<Groups>,
    /// Whether it speaks of a duplicate mod.
    pub duplicate: bool,
    /// A mod, the mod that asks for it, and the versions that it asks for.
    pub dependency: Option<Groups>,
    /// A mod that is required, and in which versions.
    pub required: Option<Groups>,
    /// A class that an error of Java names.
    pub class: Option<Groups>,
}

pub struct FailureSignsView {
    pub lower: Seq<char>,
    pub event: Option<Seq<Option<Seq<char>>>>,
    pub iface: Option<Seq<Option<Seq<char>>>>,
    pub duplicate: bool,
    pub dependency: Option<Seq<Option<Seq<char>>>>,
    pub required: Option<Seq<Option<Seq<char>>>>,
    pub class: Option<Seq<Option<Seq<char>>>>,
}

impl View for FailureSigns {
    type V = FailureSignsView;

    open spec fn view(&self) -> FailureSignsView {
        FailureSignsView {
            lower: self.lower@,
            event: groups_of(self.event),
            iface: groups_of(self.iface),
            duplicate: self.duplicate,
            dependency: groups_of(self.dependency),
            required: groups_of(self.required),
            class: groups_of(self.class),
        }
    }
}

pub open spec fn failure_signs(text: Seq<char>) -> FailureSignsView {
    FailureSignsView {
        lower: lowercase(text),
        event: captures_of(EVENT_CLASS@, text),
        iface: captures_of(BUS_IFACE@, text),
        duplicate: captures_of(DUPLICATE_MOD@, text) is Some,
        dependency: captures_of(MISSING_DEPENDENCY@, text),
        required: captures_of(REQUIRES@, text),
        class: captures_of(MISSING_CLASS@, text),
    }
}

/// Whether an error text, in lower case, speaks of an event on the wrong bus.
pub open spec fn bus_clash(lower: Seq<char>) -> bool {
    has(lower, "imodbus"@) || has(lower, "not a subtype of the base type"@)
}

/// Why a mod did not load, by what its error text holds. The first of these that fits: an event on
/// the wrong bus, a duplicate, a dependency, a requirement, a class; else the text itself.
pub open spec fn failure_made(text: Seq<char>, s: FailureSignsView) -> FailureView {
    let event = group_in(s.event, 1);
    if bus_clash(s.lower) && event is Some {
        FailureView::WrongBus {
            event: event->0,
            iface: text_or(field_in(s.iface, 1), "IModBusEvent"@),
        }
    } else if s.duplicate {
        FailureView::Duplicate
    } else if group_in(s.dependency, 1) is Some {
        FailureView::MissingDependency {
            dep: group_in(s.dependency, 1)->0,
            range: field_in(s.dependency, 3),
        }
    } else if group_in(s.required, 1) is Some {
        FailureView::MissingDependency {
            dep: group_in(s.required, 1)->0,
            range: field_in(s.required, 2),
        }
    } else {
        match missing_class_made(text, s.class) {
            Some(class) => FailureView::MissingClass(class),
            None => FailureView::Other(truncated(text, 200)),
        }
    }
}

pub fn failure_from(text: &str, s: &FailureSigns) -> (r: ModFailure)
    ensures
        r@ == failure_made(text@, s@),
{
    if contains(&s.lower, "imodbus") || contains(&s.lower, "not a subtype of the base type") {
        if let Some(event) = group_text(&s.event, 1) {
            let iface = string_or(&field_text(&s.iface, 1), "IModBusEvent");
            return ModFailure::WrongBus { event, iface };
        }
    }
    if s.duplicate {
        return ModFailure::Duplicate;
    }
    if let Some(dep) = group_text(&s.dependency, 1) {
        return ModFailure::MissingDependency { dep, range: field_text(&s.dependency, 3) };
    }
    if let Some(dep) = group_text(&s.required, 1) {
        return ModFailure::MissingDependency { dep, range: field_text(&s.required, 2) };
    }
    match missing_class_from(text, &s.class) {
        Some(class) => ModFailure::MissingClass(class),
        None => ModFailure::Other(truncate(text, 200)),
    }
}

/// Why a mod did not load, by its error text.
pub open spec fn failure_of(text: Seq<char>) -> FailureView {
    failure_made(text, failure_signs(text))
}

pub fn classify_failure(text: &str) -> (r: ModFailure)
    ensures
        r@ == failure_of(text@),
{
    let signs = FailureSigns {
        lower: to_lower(text),
        event: Pattern::new(EVENT_CLASS).captures(text),
        iface: Pattern::new(BUS_IFACE).captures(text),
        duplicate: Pattern::new(DUPLICATE_MOD).is_match(text),
        dependency: Pattern::new(MISSING_DEPENDENCY).captures(text),
        required: Pattern::new(REQUIRES).captures(text),
        class: Pattern::new(MISSING_CLASS).captures(text),
    };
    failure_from(text, &signs)
}

/// The name of a file at the end of a path.
pub open spec fn name_of_file(path: Seq<char>) -> Seq<char> {
    after_last(path, CharSet::PathSeparator)
}

pub fn file_name(path: &str) -> (r: String)
    ensures
        r@ == name_of_file(path@),
{
    tail(path, CharSet::PathSeparator).to_owned()
}

/// The longest of `name`, `name` before its last dash, before the one before that and so on, that
/// is the id of a mod.
pub open spec fn listed_stem(mods: Seq<ModView>, name: Seq<char>) -> Option<Seq<char>>
    decreases name.len(),
{
    if mod_with_id(mods, name) is Some {
        Some(name)
    } else {
        match before_last(name, CharSet::Just('-')) {
            Some(stem) => listed_stem(mods, stem),
            None => None,
        }
    }
}

fn find_stem(r: &Report, name: &str) -> (s: Option<String>)
    ensures
        text_of(s) == listed_stem(r@.mods, name@),
{
    let mut stem: &str = name;
    loop
        invariant
            listed_stem(r@.mods, stem@) == listed_stem(r@.mods, name@),
        decreases stem@.len(),
    {
        if r.mod_by_id(stem).is_some() {
            return Some(stem.to_owned());
        }
        match cut_last(stem, CharSet::Just('-')) {
            Some(shorter) => {
                stem = shorter;
            },
            None => {
                return None;
            },
        }
    }
}

/// The id of the mod that a jar holds, by the jar's name.
pub open spec fn jar_mod(mods: Seq<ModView>, jar: Seq<char>) -> Option<Seq<char>> {
    listed_stem(mods, without_suffixes(name_of_file(jar), ".jar"@))
}

pub fn mod_id_from_jar(jar: &str, r: &Report) -> (s: Option<String>)
    ensures
        text_of(s) == jar_mod(r@.mods, jar@),
{
    let name = file_name(jar);
    find_stem(r, strip_suffixes(&name, ".jar"))
}

/// What the report says of a mod that did not load.
pub struct LoadSigns {
    /// The loader's message.
    pub failure: Option<String>,
    /// The mod id in brackets in that message.
    pub named: Option<String>,
    /// The mod's file.
    pub mod_file: Option<String>,
    /// The message of the exception.
    pub exception: Option<String>,
    /// The line below the loader's message.
    pub detail: Option<String>,
    /// Where to report the mod's issues.
    pub url: Option<String>,
}

pub struct LoadView {
    pub failure: Option<Seq<char>>,
    pub named: Option<Seq<char>>,
    pub mod_file: Option<Seq<char>>,
    pub exception: Option<Seq<char>>,
    pub detail: Option<Seq<char>>,
    pub url: Option<Seq<char>>,
}

impl View for LoadSigns {
    type V = LoadView;

    open spec fn view(&self) -> LoadView {
        LoadView {
            failure: text_of(self.failure),
            named: text_of(self.named),
            mod_file: text_of(self.mod_file),
            exception: text_of(self.exception),
            detail: text_of(self.detail),
            url: text_of(self.url),
        }
    }
}

pub open spec fn load_signs(raw: Seq<char>) -> LoadView {
    let failure = field_in(captures_of(FAILURE_MESSAGE@, raw), 1);
    LoadView {
        failure,
        named: match failure {
            Some(f) => field_in(captures_of(PAREN_ID@, f), 1),
            None => None,
        },
        mod_file: field_in(captures_of(MOD_FILE@, raw), 1),
        exception: field_in(captures_of(EXCEPTION_MESSAGE@, raw), 1),
        detail: field_in(captures_of(FAILURE_DETAIL@, raw), 1),
        url: field_in(captures_of(ISSUE_URL@, raw), 1),
    }
}

fn read_load_signs(raw: &str) -> (s: LoadSigns)
    ensures
        s@ == load_signs(raw@),
{
    let failure = field_text(&Pattern::new(FAILURE_MESSAGE).captures(raw), 1);
    let named = match &failure {
        Some(f) => field_text(&Pattern::new(PAREN_ID).captures(f), 1),
        None => None,
    };
    LoadSigns {
        failure,
        named,
        mod_file: field_text(&Pattern::new(MOD_FILE).captures(raw), 1),
        exception: field_text(&Pattern::new(EXCEPTION_MESSAGE).captures(raw), 1),
        detail: field_text(&Pattern::new(FAILURE_DETAIL).captures(raw), 1),
        url: field_text(&Pattern::new(ISSUE_URL).captures(raw), 1),
    }
}

/// Whether a report says that loading failed: by the loader's message, or in its text, which is
/// given in lower case.
pub open spec fn loading_failed(s: LoadView, lower: Seq<char>) -> bool {
    s.failure is Some || has(lower, "mod loading has failed"@) || has(lower, "mod loading error"@)
}

pub fn says_loading_failed(s: &LoadSigns, lower: &str) -> (r: bool)
    ensures
        r == loading_failed(s@, lower@),
{
    s.failure.is_some() || contains(lower, "mod loading has failed") || contains(
        lower,
        "mod loading error",
    )
}

/// The mod that did not load: the one in the loader's message, or the one in the jar.
pub open spec fn failed_mod(r: ReportView, s: LoadView) -> Option<Seq<char>> {
    match s.named {
        Some(id) => Some(id),
        None => match s.mod_file {
            Some(file) => jar_mod(r.mods, file),
            None => None,
        },
    }
}

fn find_failed_mod(r: &Report, s: &LoadSigns) -> (id: Option<String>)
    ensures
        text_of(id) == failed_mod(r@, s@),
{
    match &s.named {
        Some(id) => Some(id.clone()),
        None => match &s.mod_file {
            Some(file) => mod_id_from_jar(file, r),
            None => None,
        },
    }
}

pub open spec fn failed_entry(r: ReportView, s: LoadView) -> Option<ModView> {
    match failed_mod(r, s) {
        Some(id) => mod_with_id(r.mods, id),
        None => None,
    }
}

/// Who is to blame.
pub open spec fn load_blame(r: ReportView, s: LoadView) -> Seq<char> {
    label_or(failed_entry(r, s), text_or(failed_mod(r, s), "a mod"@))
}

/// The error: the exception's message, else the line below the loader's message, else that.
pub open spec fn load_error(s: LoadView) -> Seq<char> {
    text_or(s.exception, text_or(s.detail, text_or(s.failure, "no error text"@)))
}

/// The error that the report gives for a mod that did not load.
pub fn load_error_text(s: &LoadSigns) -> (r: String)
    ensures
        r@ == load_error(s@),
{
    string_or(
        &s.exception,
        &string_or(&s.detail, &string_or(&s.failure, "no error text")),
    )
}

/// A version range in front of which something stands, or nothing.
pub open spec fn range_text(before: Seq<char>, range: Option<Seq<char>>, after: Seq<char>) -> Seq<
    char,
> {
    match range {
        Some(r) => before + r + after,
        None => Seq::empty(),
    }
}

fn range_in_words(before: &str, range: &Option<String>, after: &str) -> (r: String)
    ensures
        r@ == range_text(before@, text_of(*range), after@),
{
    match range {
        Some(r) => cat3(before, r, after),
        None => String::new(),
    }
}

pub open spec fn load_cause(blame: Seq<char>, kind: FailureView) -> Seq<char> {
    match kind {
        FailureView::WrongBus { event, .. } => "Mod loading failed: "@ + blame + " listens for "@
            + event
            + " on the wrong event bus. That event belongs to the Forge bus, and this listener sits on the mod bus"@,
        FailureView::Duplicate => "Mod loading failed: "@ + blame + " is installed twice"@,
        FailureView::MissingDependency { dep, range } => "Mod loading failed: "@ + blame
            + " needs "@ + dep + range_text(" (version "@, range, ")"@)
            + " and it is not there"@,
        FailureView::MissingClass(class) => "Mod loading failed: "@ + blame + " needs the class "@
            + class + ", which is not in the modpack"@,
        FailureView::Other(text) => "Mod loading failed: "@ + blame
            + " blew up before the game got to the menu. "@ + text,
    }
}

fn cause_of_failure(blame: &str, kind: &ModFailure) -> (r: String)
    ensures
        r@ == load_cause(blame@, kind@),
{
    match kind {
        ModFailure::WrongBus { event, iface: _ } => cat5(
            "Mod loading failed: ",
            blame,
            " listens for ",
            event,
            " on the wrong event bus. That event belongs to the Forge bus, and this listener sits on the mod bus",
        ),
        ModFailure::Duplicate => cat3("Mod loading failed: ", blame, " is installed twice"),
        ModFailure::MissingDependency { dep, range } => cat6(
            "Mod loading failed: ",
            blame,
            " needs ",
            dep,
            &range_in_words(" (version ", range, ")"),
            " and it is not there",
        ),
        ModFailure::MissingClass(class) => cat5(
            "Mod loading failed: ",
            blame,
            " needs the class ",
            class,
            ", which is not in the modpack",
        ),
        ModFailure::Other(text) => cat4(
            "Mod loading failed: ",
            blame,
            " blew up before the game got to the menu. ",
            text,
        ),
    }
}

/// Whether a mod gives no place for its issues.
pub open spec fn no_issue_url(url: Seq<char>) -> bool {
    ascii_lowered(url) == "not provided"@
}

pub open spec fn load_evidence(r: ReportView, s: LoadView) -> Seq<Seq<char>> {
    let e = match s.mod_file {
        Some(file) => no_lines().push("mod file: "@ + name_of_file(file)),
        None => no_lines(),
    };
    let e = match s.failure {
        Some(line) => e.push("Forge says: "@ + line),
        None => e,
    };
    let e = e.push("error: "@ + truncated(load_error(s), 240));
    let e = match s.url {
        Some(url) => if no_issue_url(url) {
            e
        } else {
            e.push("mod issue URL: "@ + url)
        },
        None => e,
    };
    with_entry_and_env(e, failed_entry(r, s), r)
}

/// What to do: `blame` names the mod, and `short` names it without its version.
pub open spec fn load_fix(
    r: ReportView,
    blame: Seq<char>,
    short: Seq<char>,
    kind: FailureView,
) -> Seq<Seq<char>> {
    match kind {
        FailureView::WrongBus { event, iface } => no_lines().push(
            "in code: register "@ + event
                + " on MinecraftForge.EVENT_BUS instead of the mod bus (interface "@ + iface
                + " means it is a Forge event)"@,
        ).push(
            "in game: this is a bug in "@ + short
                + ". Use another build and report it; there is nothing you can fix on your side"@,
        ),
        FailureView::Duplicate => no_lines().push(
            "delete the duplicate jar from your mods folder"@,
        ).push("keep only one build of "@ + blame),
        FailureView::MissingDependency { dep, range } => no_lines().push(
            "install "@ + dep + range_text(" "@, range, ""@) + " on the client and on the server"@,
        ).push("the pair has to be on both sides with the same version"@),
        FailureView::MissingClass(class) => {
            let first = match mod_owning(r.mods, class) {
                Some(m) => "install "@ + mod_label(m) + ": "@ + blame + " needs "@ + class
                    + " and it is not loaded"@,
                None => "install the mod or library that ships "@ + class
                    + " (it is likely another mod "@ + blame + " depends on)"@,
            };
            no_lines().push(first).push(
                "if you compiled that mod yourself, the dependency is missing from your build"@,
            )
        },
        FailureView::Other(_) => no_lines().push(
            "this is "@ + blame + "'s own failure: report it with this crash report attached"@,
        ).push("try another build of "@ + blame + " (or roll back to the previous one)"@),
    }
}

pub open spec fn load_dev_tip(r: ReportView, kind: FailureView) -> Seq<Seq<char>> {
    let frame = mod_frame(r.frames, r.mods);
    let t = match kind {
        FailureView::WrongBus { event, .. } => {
            let t = no_lines().push(
                "if you are a dev, this is the bus mixup. Forge events like "@ + event
                    + " go on MinecraftForge.EVENT_BUS or on @Mod.EventBusSubscriber(bus = Bus.FORGE). Mod lifecycle events go on the bus from FMLJavaModLoadingContext.get().getModEventBus()"@,
            );
            match frame {
                Some(f) => t.push(frame_site(f) + " is the line that registers the listener"@),
                None => t,
            }
        },
        FailureView::Duplicate => no_lines().push(
            "if you are a dev, check that your build output is not sitting in mods/ next to an older jar, and that you do not ship the same mod under two names"@,
        ),
        FailureView::MissingDependency { dep, .. } => no_lines().push(
            "if you are a dev, declare it in mods.toml: a [[dependencies.<your_modid>]] block with modId = \""@
                + dep
                + "\", mandatory = true and the version range you tested. Then the loader fails with a clear message instead of this crash"@,
        ),
        FailureView::MissingClass(class) => no_lines().push(
            "if you are a dev, the class "@ + class
                + " ships in another artifact: declare it in mods.toml, or shade that library into your jar with shadowJar and jarJar it"@,
        ),
        FailureView::Other(_) => no_lines().push(
            "if you are a dev, decompile the mod named above and read its constructor and class static block: the error line Forge printed is the real one, the rest of the report is the wrapper"@,
        ),
    };
    with_jar_advice(t, frame)
}

/// The diagnosis for a mod that did not load.
pub open spec fn load_diagnosis(r: ReportView, s: LoadView, kind: FailureView) -> DiagnosisView {
    DiagnosisView {
        culprit: Some(load_blame(r, s)),
        cause: load_cause(load_blame(r, s), kind),
        evidence: load_evidence(r, s),
        fix: load_fix(
            r,
            load_blame(r, s),
            text_or(failed_mod(r, s), load_blame(r, s)),
            kind,
        ),
        dev_tip: load_dev_tip(r, kind),
        confidence: if failed_mod(r, s) is Some {
            Confidence::High
        } else {
            Confidence::Medium
        },
    }
}

/// What the rule finds: something where the report says that loading failed.
pub open spec fn load_verdict(r: ReportView) -> Option<DiagnosisView> {
    let s = load_signs(r.raw);
    if loading_failed(s, lowercase(r.raw)) {
        Some(load_diagnosis(r, s, failure_of(load_error(s))))
    } else {
        None
    }
}

fn load_fixes(r: &Report, blame: &str, short: &str, kind: &ModFailure) -> (fix: Vec<String>)
    ensures
        texts(fix@) == load_fix(r@, blame@, short@, kind@),
{
    let mut fix = new_lines();
    match kind {
        ModFailure::WrongBus { event, iface } => {
            push_text(
                &mut fix,
                cat5(
                    "in code: register ",
                    event,
                    " on MinecraftForge.EVENT_BUS instead of the mod bus (interface ",
                    iface,
                    " means it is a Forge event)",
                ),
            );
            push_text(
                &mut fix,
                cat3(
                    "in game: this is a bug in ",
                    short,
                    ". Use another build and report it; there is nothing you can fix on your side",
                ),
            );
        },
        ModFailure::Duplicate => {
            push_text(&mut fix, "delete the duplicate jar from your mods folder".to_owned());
            push_text(&mut fix, cat2("keep only one build of ", blame));
        },
        ModFailure::MissingDependency { dep, range } => {
            push_text(
                &mut fix,
                cat4(
                    "install ",
                    dep,
                    &range_in_words(" ", range, ""),
                    " on the client and on the server",
                ),
            );
            push_text(
                &mut fix,
                "the pair has to be on both sides with the same version".to_owned(),
            );
        },
        ModFailure::MissingClass(class) => {
            match r.mod_for_class(class) {
                Some(m) => {
                    let head = cat4("install ", &m.label(), ": ", blame);
                    push_text(
                        &mut fix,
                        cat4(&head, " needs ", class, " and it is not loaded"),
                    );
                },
                None => push_text(
                    &mut fix,
                    cat5(
                        "install the mod or library that ships ",
                        class,
                        " (it is likely another mod ",
                        blame,
                        " depends on)",
                    ),
                ),
            }
            push_text(
                &mut fix,
                "if you compiled that mod yourself, the dependency is missing from your build".to_owned(),
            );
        },
        ModFailure::Other(_) => {
            push_text(
                &mut fix,
                cat3(
                    "this is ",
                    blame,
                    "'s own failure: report it with this crash report attached",
                ),
            );
            push_text(
                &mut fix,
                cat3("try another build of ", blame, " (or roll back to the previous one)"),
            );
        },
    }
    fix
}

fn load_tips(r: &Report, kind: &ModFailure) -> (dev_tip: Vec<String>)
    ensures
        texts(dev_tip@) == load_dev_tip(r@, kind@),
{
    let frame = r.first_mod_frame();
    let mut dev_tip = new_lines();
    match kind {
        ModFailure::WrongBus { event, iface: _ } => {
            push_text(
                &mut dev_tip,
                cat3(
                    "if you are a dev, this is the bus mixup. Forge events like ",
                    event,
                    " go on MinecraftForge.EVENT_BUS or on @Mod.EventBusSubscriber(bus = Bus.FORGE). Mod lifecycle events go on the bus from FMLJavaModLoadingContext.get().getModEventBus()",
                ),
            );
            if let Some(f) = frame {
                push_text(
                    &mut dev_tip,
                    cat2(&f.site(), " is the line that registers the listener"),
                );
            }
        },
        ModFailure::Duplicate => push_text(
            &mut dev_tip,
            "if you are a dev, check that your build output is not sitting in mods/ next to an older jar, and that you do not ship the same mod under two names".to_owned(),
        ),
        ModFailure::MissingDependency { dep, range: _ } => push_text(
            &mut dev_tip,
            cat3(
                "if you are a dev, declare it in mods.toml: a [[dependencies.<your_modid>]] block with modId = \"",
                dep,
                "\", mandatory = true and the version range you tested. Then the loader fails with a clear message instead of this crash",
            ),
        ),
        ModFailure::MissingClass(class) => push_text(
            &mut dev_tip,
            cat3(
                "if you are a dev, the class ",
                class,
                " ships in another artifact: declare it in mods.toml, or shade that library into your jar with shadowJar and jarJar it",
            ),
        ),
        ModFailure::Other(_) => push_text(
            &mut dev_tip,
            "if you are a dev, decompile the mod named above and read its constructor and class static block: the error line Forge printed is the real one, the rest of the report is the wrapper".to_owned(),
        ),
    }
    push_jar_hint(&mut dev_tip, frame);
    dev_tip
}

/// Names the mod that did not load.
pub fn diagnose_mod_load(r: &Report, s: &LoadSigns, kind: &ModFailure) -> (d: Diagnosis)
    ensures
        d@ == load_diagnosis(r@, s@, kind@),
{
    let id = find_failed_mod(r, s);
    let entry = match &id {
        Some(id) => r.mod_by_id(id),
        None => None,
    };
    let blame = label_text(entry, &string_or(&id, "a mod"));
    let short = string_or(&id, &blame);
    let cause = cause_of_failure(&blame, kind);
    let confidence = if id.is_some() {
        Confidence::High
    } else {
        Confidence::Medium
    };
    let mut evidence = new_lines();
    if let Some(file) = &s.mod_file {
        push_text(&mut evidence, cat2("mod file: ", &file_name(file)));
    }
    if let Some(line) = &s.failure {
        push_text(&mut evidence, cat2("Forge says: ", line));
    }
    push_text(&mut evidence, cat2("error: ", &truncate(&load_error_text(s), 240)));
    if let Some(url) = &s.url {
        if !same(&to_ascii_lower(url), "not provided") {
            push_text(&mut evidence, cat2("mod issue URL: ", url));
        }
    }
    push_entry_and_env(&mut evidence, entry, r);
    let fix = load_fixes(r, &blame, &short, kind);
    let dev_tip = load_tips(r, kind);
    Diagnosis { culprit: Some(blame), cause, evidence, fix, dev_tip, confidence }
}

pub fn check_mod_load(r: &Report) -> (d: Option<Diagnosis>)
    ensures
        verdict_of(d) == load_verdict(r@),
{
    let s = read_load_signs(&r.raw);
    if !says_loading_failed(&s, &to_lower(&r.raw)) {
        return None;
    }
    let kind = classify_failure(&load_error_text(&s));
    Some(diagnose_mod_load(r, &s, &kind))
}

} // verus!

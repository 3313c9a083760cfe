//! Code asks for a class, a method or a field that is not there.
use vstd::prelude::*;
use crate::model::{
    exc_simple, exc_text, excs_of, frame_site, loader_label, mod_frame, mod_label, mod_owning,
    mod_with_id, Confidence, Diagnosis, DiagnosisView, Exc, ExcView, FrameView, ModInfo, ModView,
    Report, ReportView, StackFrame,
};
use crate::number::{decimal, decimal_text};
use crate::pattern::{captures_of, group_in, group_text, groups_of, Groups, Pattern};
use crate::rules::common::{
    frame_view, mod_view, new_lines, no_lines, push_entry_and_env, push_jar_hint, verdict_of,
    with_entry_and_env, with_jar_advice,
};
use crate::text::{
    cat2, cat3, cat4, cat5, cat6, cat7, contains_char, push_text, same, split_words, starts_with,
    text_of, text_or, texts, trim, trim_of, trim_set, trimmed, truncate, truncated, words, CharSet,
};

verus! {

pub const SYMBOL_CALL: &'static str = r"(?:^|[\s(,])((?:[A-Za-z_$][\w$]*\.)+[A-Za-z_$][\w$]*)\.([A-Za-z_$][\w$<>]*)\s*\(";

pub const SYMBOL_FIELD: &'static str = r"(?:^|[\s(,])((?:[A-Za-z_$][\w$]*\.)+[A-Za-z_$][\w$]*)\.([A-Za-z_$][\w$]*)\s*$";

pub const MISSING_CLASS: &'static str = r"(?:NoClassDefFoundError|ClassNotFoundException)[:\s]+([\w.$]+)";

/// What code asks for: a class, or a method or field of one.
pub struct Symbol {
    pub owner: String,
    pub name: String,
    pub signature: String,
    pub is_method: bool,
}

pub struct SymbolView {
    pub owner: Seq<char>,
    pub name: Seq<char>,
    pub signature: Seq<char>,
    pub is_method: bool,
}

impl View for Symbol {
    type V = SymbolView;

    open spec fn view(&self) -> SymbolView {
        SymbolView {
            owner: self.owner@,
            name: self.name@,
            signature: self.signature@,
            is_method: self.is_method,
        }
    }
}

pub open spec fn symbol_of(s: Option<Symbol>) -> Option<SymbolView> {
    match s {
        Some(s) => Some(s@),
        None => None,
    }
}

pub open spec fn symbol_text(s: SymbolView) -> Seq<char> {
    if s.name.len() == 0 {
        s.owner
    } else if s.is_method {
        s.owner + "."@ + s.name + "()"@
    } else {
        s.owner + "."@ + s.name
    }
}

impl Symbol {
    pub fn describe(&self) -> (r: String)
        ensures
            r@ == symbol_text(self@),
    {
        if self.name.as_str().is_empty() {
            self.owner.clone()
        } else if self.is_method {
            cat4(&self.owner, ".", &self.name, "()")
        } else {
            cat3(&self.owner, ".", &self.name)
        }
    }
}

/// A text without white space and single quotes around it.
pub open spec fn unquoted(s: Seq<char>) -> Seq<char> {
    trimmed(trim_of(trimmed(s), CharSet::Just('\''), true))
}

fn unquote<'a>(s: &'a str) -> (r: &'a str)
    ensures
        r@ == unquoted(s@),
{
    trim(trim_set(trim(s), CharSet::Just('\''), true))
}

/// The method or field that a message speaks of, from what it holds of a call and of a field.
pub open spec fn symbol_made(
    msg: Seq<char>,
    call: Option<Seq<Option<Seq<char>>>>,
    field: Option<Seq<Option<Seq<char>>>>,
) -> Option<SymbolView> {
    let clean = unquoted(msg);
    if clean.len() == 0 {
        None
    } else {
        match (group_in(call, 1), group_in(call, 2)) {
            (Some(owner), Some(name)) => Some(
                SymbolView { owner, name, signature: truncated(clean, 180), is_method: true },
            ),
            _ => match (group_in(field, 1), group_in(field, 2)) {
                (Some(owner), Some(name)) => Some(
                    SymbolView { owner, name, signature: truncated(clean, 180), is_method: false },
                ),
                _ => None,
            },
        }
    }
}

pub fn symbol_from(msg: &str, call: &Option<Groups>, field: &Option<Groups>) -> (r: Option<Symbol>)
    ensures
        symbol_of(r) == symbol_made(msg@, groups_of(*call), groups_of(*field)),
{
    let clean = unquote(msg);
    if clean.is_empty() {
        return None;
    }
    match (group_text(call, 1), group_text(call, 2)) {
        (Some(owner), Some(name)) => Some(
            Symbol { owner, name, signature: truncate(clean, 180), is_method: true },
        ),
        _ => match (group_text(field, 1), group_text(field, 2)) {
            (Some(owner), Some(name)) => Some(
                Symbol { owner, name, signature: truncate(clean, 180), is_method: false },
            ),
            _ => None,
        },
    }
}

/// The method or field that a message speaks of.
pub open spec fn symbol_in(msg: Seq<char>) -> Option<SymbolView> {
    let clean = unquoted(msg);
    symbol_made(msg, captures_of(SYMBOL_CALL@, clean), captures_of(SYMBOL_FIELD@, clean))
}

pub fn parse_symbol(msg: &str) -> (r: Option<Symbol>)
    ensures
        symbol_of(r) == symbol_in(msg@),
{
    let clean = unquote(msg);
    symbol_from(
        msg,
        &Pattern::new(SYMBOL_CALL).captures(clean),
        &Pattern::new(SYMBOL_FIELD).captures(clean),
    )
}

/// The class of a name that has a dot in it.
pub open spec fn class_symbol(name: Seq<char>) -> Option<SymbolView> {
    let clean = unquoted(name);
    if clean.contains('.') {
        Some(
            SymbolView { owner: clean, name: Seq::empty(), signature: clean, is_method: false },
        )
    } else {
        None
    }
}

pub fn parse_class(name: &str) -> (r: Option<Symbol>)
    ensures
        symbol_of(r) == class_symbol(name@),
{
    let clean = unquote(name);
    if !contains_char(clean, '.') {
        return None;
    }
    Some(
        Symbol {
            owner: clean.to_owned(),
            name: String::new(),
            signature: clean.to_owned(),
            is_method: false,
        },
    )
}

/// The last word that has a dot in it and no bracket in front.
pub open spec fn last_dotted(parts: Seq<Seq<char>>) -> Option<Seq<char>>
    decreases parts.len(),
{
    if parts.len() == 0 {
        None
    } else if parts.last().contains('.') && !"("@.is_prefix_of(parts.last()) {
        Some(parts.last())
    } else {
        last_dotted(parts.drop_last())
    }
}

/// The class that a message says is missing: the one behind the error's name, or else the last
/// dotted word, without the characters around it that no class name holds.
pub open spec fn missing_class_made(
    msg: Seq<char>,
    c: Option<Seq<Option<Seq<char>>>>,
) -> Option<Seq<char>> {
    match group_in(c, 1) {
        Some(name) => Some(name),
        None => match last_dotted(words(msg)) {
            Some(word) => Some(trim_of(word, CharSet::ClassName, false)),
            None => None,
        },
    }
}

pub fn missing_class_from(msg: &str, found: &Option<Groups>) -> (r: Option<String>)
    ensures
        text_of(r) == missing_class_made(msg@, groups_of(*found)),
{
    let named = group_text(found, 1);
    if named.is_some() {
        return named;
    }
    let parts = split_words(msg);
    let ghost all = texts(parts@);
    let mut i: usize = parts.len();
    assert(all.take(i as int) =~= all);
    while i > 0
        invariant
            i <= parts.len(),
            all == texts(parts@),
            all == words(msg@),
            group_in(groups_of(*found), 1) is None,
            last_dotted(all) == last_dotted(all.take(i as int)),
        decreases i,
    {
        assert(all.take(i as int).last() == parts@[i - 1]@);
        assert(all.take(i as int).drop_last() =~= all.take(i - 1));
        let word: &str = &parts[i - 1];
        if contains_char(word, '.') && !starts_with(word, "(") {
            return Some(trim_set(word, CharSet::ClassName, false).to_owned());
        }
        i = i - 1;
    }
    None
}

/// The class that a message says is missing.
pub open spec fn missing_class_in(msg: Seq<char>) -> Option<Seq<char>> {
    missing_class_made(msg, captures_of(MISSING_CLASS@, msg))
}

pub fn missing_class(msg: &str) -> (r: Option<String>)
    ensures
        text_of(r) == missing_class_in(msg@),
{
    missing_class_from(msg, &Pattern::new(MISSING_CLASS).captures(msg))
}

/// Whose a class is.
#[derive(Debug)]
pub enum OwnerKind {
    Vanilla,
    Forge,
    OtherMod(String),
    Unknown,
}

pub enum OwnerView {
    Vanilla,
    Forge,
    OtherMod(Seq<char>),
    Unknown,
}

impl View for OwnerKind {
    type V = OwnerView;

    open spec fn view(&self) -> OwnerView {
        match self {
            OwnerKind::Vanilla => OwnerView::Vanilla,
            OwnerKind::Forge => OwnerView::Forge,
            OwnerKind::OtherMod(id) => OwnerView::OtherMod(id@),
            OwnerKind::Unknown => OwnerView::Unknown,
        }
    }
}

pub open spec fn owner_of(mods: Seq<ModView>, class: Seq<char>) -> OwnerView {
    if "net.minecraft."@.is_prefix_of(class) || "com.mojang."@.is_prefix_of(class) {
        OwnerView::Vanilla
    } else if "net.minecraftforge."@.is_prefix_of(class) || "cpw.mods."@.is_prefix_of(class) {
        OwnerView::Forge
    } else {
        match mod_owning(mods, class) {
            Some(m) => OwnerView::OtherMod(m.id),
            None => OwnerView::Unknown,
        }
    }
}

pub fn classify_owner(r: &Report, owner: &str) -> (k: OwnerKind)
    ensures
        k@ == owner_of(r@.mods, owner@),
{
    if starts_with(owner, "net.minecraft.") || starts_with(owner, "com.mojang.") {
        return OwnerKind::Vanilla;
    }
    if starts_with(owner, "net.minecraftforge.") || starts_with(owner, "cpw.mods.") {
        return OwnerKind::Forge;
    }
    match r.mod_for_class(owner) {
        Some(m) => OwnerKind::OtherMod(m.id.clone()),
        None => OwnerKind::Unknown,
    }
}

pub open spec fn owner_text(k: OwnerView) -> Seq<char> {
    match k {
        OwnerView::Vanilla => "Minecraft vanilla class"@,
        OwnerView::Forge => "Forge class"@,
        OwnerView::OtherMod(id) => "class of mod "@ + id,
        OwnerView::Unknown => "class from an unknown package"@,
    }
}

pub fn owner_label(kind: &OwnerKind) -> (r: String)
    ensures
        r@ == owner_text(kind@),
{
    match kind {
        OwnerKind::Vanilla => "Minecraft vanilla class".to_owned(),
        OwnerKind::Forge => "Forge class".to_owned(),
        OwnerKind::OtherMod(id) => cat2("class of mod ", id),
        OwnerKind::Unknown => "class from an unknown package".to_owned(),
    }
}

/// Whether an error says that a class is missing.
pub open spec fn class_error(kind: Seq<char>) -> bool {
    kind == "NoClassDefFoundError"@ || kind == "ClassNotFoundException"@
}

/// Whether an error says that something is missing.
pub open spec fn symbol_error(kind: Seq<char>) -> bool {
    kind == "NoSuchMethodError"@ || kind == "NoSuchFieldError"@ || class_error(kind)
}

/// The first exception that says that something is missing.
pub open spec fn missing_exc(excs: Seq<ExcView>) -> Option<ExcView>
    decreases excs.len(),
{
    if excs.len() == 0 {
        None
    } else if symbol_error(exc_simple(excs[0])) {
        Some(excs[0])
    } else {
        missing_exc(excs.skip(1))
    }
}

fn find_missing(excs: &Vec<Exc>) -> (r: Option<&Exc>)
    ensures
        match r {
            Some(e) => missing_exc(excs_of(excs@)) == Some(e@),
            None => missing_exc(excs_of(excs@)) is None,
        },
{
    let ghost all = excs_of(excs@);
    let mut i: usize = 0;
    assert(all.skip(0) =~= all);
    while i < excs.len()
        invariant
            i <= excs.len(),
            all == excs_of(excs@),
            missing_exc(all) == missing_exc(all.skip(i as int)),
        decreases excs.len() - i,
    {
        let e = &excs[i];
        assert(all.skip(i as int)[0] == e@);
        assert(all.skip(i as int).skip(1) =~= all.skip(i + 1));
        let kind = e.simple();
        if same(kind, "NoSuchMethodError") || same(kind, "NoSuchFieldError") || is_class_error(
            kind,
        ) {
            return Some(e);
        }
        i = i + 1;
    }
    None
}

fn is_class_error(kind: &str) -> (r: bool)
    ensures
        r == class_error(kind@),
{
    same(kind, "NoClassDefFoundError") || same(kind, "ClassNotFoundException")
}

/// The message of an exception, or nothing.
pub open spec fn message_of(exc: ExcView) -> Seq<char> {
    text_or(exc.message, Seq::empty())
}

/// What an exception says is missing.
pub open spec fn symbol_missing(exc: ExcView) -> Option<SymbolView> {
    if class_error(exc_simple(exc)) {
        match missing_class_in(message_of(exc)) {
            Some(name) => class_symbol(name),
            None => None,
        }
    } else {
        symbol_in(message_of(exc))
    }
}

/// The mod that a frame's class belongs to.
pub open spec fn frame_mod(r: ReportView, frame: Option<FrameView>) -> Option<ModView> {
    match frame {
        Some(f) => mod_owning(r.mods, f.class),
        None => None,
    }
}

/// The mod that the first frame of a mod belongs to.
pub open spec fn first_mod(r: ReportView) -> Option<ModView> {
    frame_mod(r, mod_frame(r.frames, r.mods))
}

pub open spec fn label_or(m: Option<ModView>, other: Seq<char>) -> Seq<char> {
    match m {
        Some(m) => mod_label(m),
        None => other,
    }
}

pub open spec fn id_or(m: Option<ModView>, other: Seq<char>) -> Seq<char> {
    match m {
        Some(m) => m.id,
        None => other,
    }
}

pub(crate) fn label_text(m: Option<&ModInfo>, other: &str) -> (r: String)
    ensures
        r@ == label_or(mod_view(m), other@),
{
    match m {
        Some(m) => m.label(),
        None => other.to_owned(),
    }
}

pub(crate) fn id_text(m: Option<&ModInfo>, other: &str) -> (r: String)
    ensures
        r@ == id_or(mod_view(m), other@),
{
    match m {
        Some(m) => m.id.clone(),
        None => other.to_owned(),
    }
}

pub(crate) fn string_or(o: &Option<String>, other: &str) -> (r: String)
    ensures
        r@ == text_or(text_of(*o), other@),
{
    match o {
        Some(s) => s.clone(),
        None => other.to_owned(),
    }
}

pub(crate) fn mod_of_frame<'a>(r: &'a Report, frame: Option<&StackFrame>) -> (m: Option<
    &'a ModInfo,
>)
    ensures
        mod_view(m) == frame_mod(r@, frame_view(frame)),
{
    match frame {
        Some(f) => r.mod_for_class(&f.class),
        None => None,
    }
}

/// Whose the missing symbol is.
pub open spec fn symbol_owner(r: ReportView, symbol: Option<SymbolView>) -> OwnerView {
    match symbol {
        Some(s) => owner_of(r.mods, s.owner),
        None => OwnerView::Unknown,
    }
}

/// Why the game broke: `kind` is the error, `who` the mod that asks for the symbol, and `owner`
/// whose the symbol is.
pub open spec fn missing_cause(
    r: ReportView,
    kind: Seq<char>,
    who: Seq<char>,
    owner: OwnerView,
) -> Seq<char> {
    let is_class = class_error(kind);
    let loader = loader_label(r.loader);
    let mc = text_or(r.mc_version, "unknown"@);
    match owner {
        OwnerView::Forge => kind + ": the mod asks for a "@ + loader
            + " symbol this build does not have"@,
        OwnerView::Vanilla => kind + ": the mod calls Minecraft code that "@ + mc
            + " does not have. This build is for another game version"@,
        OwnerView::OtherMod(other) => if is_class {
            kind + ": "@ + who + " needs a class that "@ + other
                + " ships and that mod is not loaded (missing dependency)"@
        } else {
            kind + ": "@ + who + " calls an API of "@ + other
                + " that this version no longer exposes (mod-to-mod mismatch)"@
        },
        OwnerView::Unknown => if is_class {
            kind + ": a class is missing from the classpath, and "@ + who
                + " expects another mod to provide it"@
        } else {
            kind + ": a symbol is missing from the classpath. "@ + who
                + " was compiled against another "@ + loader + "/Minecraft version"@
        },
    }
}

pub open spec fn missing_evidence(
    r: ReportView,
    exc: ExcView,
    symbol: Option<SymbolView>,
) -> Seq<Seq<char>> {
    let e = match mod_frame(r.frames, r.mods) {
        Some(f) => no_lines().push(
            frame_site(f) + " (stacktrace line "@ + decimal(f.index) + ")"@,
        ),
        None => no_lines().push(
            "no mod frame in the stacktrace; the exception is: "@ + exc_text(exc),
        ),
    };
    let owner = owner_text(symbol_owner(r, symbol));
    let e = match symbol {
        Some(s) => if class_error(exc_simple(exc)) {
            e.push("missing class: "@ + symbol_text(s) + " ("@ + owner + ")"@)
        } else {
            e.push("missing symbol: "@ + symbol_text(s) + " ("@ + owner + ")"@).push(
                "signature the mod asks for: "@ + s.signature,
            )
        },
        None => e.push("missing symbol: "@ + truncated(message_of(exc), 180)),
    };
    with_entry_and_env(e, first_mod(r), r)
}

/// The mod that is named: that of the first frame of a mod, or else the one whose the symbol is.
pub open spec fn missing_culprit(r: ReportView, symbol: Option<SymbolView>) -> Option<Seq<char>> {
    match first_mod(r) {
        Some(m) => Some(mod_label(m)),
        None => match symbol_owner(r, symbol) {
            OwnerView::OtherMod(id) => Some(
                label_or(mod_with_id(r.mods, id), id + " (not in this report's mod list)"@),
            ),
            _ => None,
        },
    }
}

pub open spec fn missing_fix(r: ReportView, symbol: Option<SymbolView>) -> Seq<Seq<char>> {
    let action = id_or(first_mod(r), "that mod"@);
    let loader = loader_label(r.loader);
    let loader_v = text_or(r.loader_version, "?"@);
    let mc = text_or(r.mc_version, "unknown"@);
    match symbol_owner(r, symbol) {
        OwnerView::Forge => no_lines().push(
            "update "@ + loader + " to the latest build for MC "@ + mc + " (you are on "@ + loader_v
                + "); the mod expects a newer API"@,
        ).push("or downgrade "@ + action + " to a build made for "@ + loader + " "@ + loader_v),
        OwnerView::Vanilla => no_lines().push(
            "use the "@ + action + " build for MC "@ + mc
                + " (this one is compiled for another version)"@,
        ).push(
            "if you just moved the pack to another game version, that mod was left behind: check the rest the same way"@,
        ),
        OwnerView::OtherMod(other) => no_lines().push(
            "install "@ + label_or(mod_with_id(r.mods, other), other)
                + " on both client and server"@,
        ).push(
            "if it is already installed, the versions do not match: update "@ + action + " or "@
                + other + " until they agree"@,
        ),
        OwnerView::Unknown => no_lines().push(
            "find which mod provides that symbol and use its build for "@ + loader + " "@ + loader_v
                + " + MC "@ + mc,
        ).push("if you compiled the mod yourself: rebuild it against the installed Forge"@),
    }
}

pub open spec fn missing_dev_tip(
    r: ReportView,
    exc: ExcView,
    symbol: Option<SymbolView>,
) -> Seq<Seq<char>> {
    let frame = mod_frame(r.frames, r.mods);
    let t = match frame {
        Some(f) => match symbol {
            Some(s) => no_lines().push(
                "if you are a dev, open "@ + frame_site(f) + " and read the call to "@
                    + symbol_text(s) + ": that symbol is not in this classpath"@,
            ),
            None => no_lines().push(
                "if you are a dev, open "@ + frame_site(f) + " and read the call that fails"@,
            ),
        },
        None => no_lines(),
    };
    let t = match symbol_owner(r, symbol) {
        OwnerView::Forge => t.push(
            "the name or the argument list changed in a newer Forge: rebuild against "@
                + loader_label(r.loader) + " "@ + text_or(r.loader_version, "?"@)
                + " (your gradle.properties), or raise the Forge dependency in mods.toml if you want the new API"@,
        ),
        OwnerView::Vanilla => t.push(
            "that class was compiled for another Minecraft version: check the game version in gradle.properties and recompile"@,
        ),
        OwnerView::OtherMod(other) => t.push(
            "pin the "@ + other
                + " version you compile against, ask its author for the new signature, or shade the API you need"@,
        ),
        OwnerView::Unknown => t.push(
            "diff the API you call against the version you compile against"@,
        ),
    };
    let t = if class_error(exc_simple(exc)) {
        t.push(
            "for a missing class: declare that dependency in mods.toml (mandatory), or shade it into your jar with shadowJar and jarJar it"@,
        )
    } else {
        t
    };
    with_jar_advice(t, frame)
}

/// The diagnosis for an exception and what it says is missing.
pub open spec fn missing_diagnosis(
    r: ReportView,
    exc: ExcView,
    symbol: Option<SymbolView>,
) -> DiagnosisView {
    DiagnosisView {
        culprit: missing_culprit(r, symbol),
        cause: missing_cause(
            r,
            exc_simple(exc),
            label_or(first_mod(r), "the mod in the stacktrace"@),
            symbol_owner(r, symbol),
        ),
        evidence: missing_evidence(r, exc, symbol),
        fix: missing_fix(r, symbol),
        dev_tip: missing_dev_tip(r, exc, symbol),
        confidence: if first_mod(r) is Some {
            Confidence::High
        } else {
            Confidence::Medium
        },
    }
}

/// What the rule finds: something where an exception says that a class, method or field is
/// missing.
pub open spec fn missing_verdict(r: ReportView) -> Option<DiagnosisView> {
    match missing_exc(r.exceptions) {
        Some(exc) => Some(missing_diagnosis(r, exc, symbol_missing(exc))),
        None => None,
    }
}

fn cause_of_missing(r: &Report, kind: &str, who: &str, owner: &OwnerKind) -> (c: String)
    ensures
        c@ == missing_cause(r@, kind@, who@, owner@),
{
    let is_class = is_class_error(kind);
    let loader = r.loader.label();
    match owner {
        OwnerKind::Forge => cat4(
            kind,
            ": the mod asks for a ",
            loader,
            " symbol this build does not have",
        ),
        OwnerKind::Vanilla => cat4(
            kind,
            ": the mod calls Minecraft code that ",
            &string_or(&r.mc_version, "unknown"),
            " does not have. This build is for another game version",
        ),
        OwnerKind::OtherMod(other) => if is_class {
            cat6(
                kind,
                ": ",
                who,
                " needs a class that ",
                other,
                " ships and that mod is not loaded (missing dependency)",
            )
        } else {
            cat6(
                kind,
                ": ",
                who,
                " calls an API of ",
                other,
                " that this version no longer exposes (mod-to-mod mismatch)",
            )
        },
        OwnerKind::Unknown => if is_class {
            cat4(
                kind,
                ": a class is missing from the classpath, and ",
                who,
                " expects another mod to provide it",
            )
        } else {
            cat6(
                kind,
                ": a symbol is missing from the classpath. ",
                who,
                " was compiled against another ",
                loader,
                "/Minecraft version",
            )
        },
    }
}

/// Names the mod behind an exception that says that something is missing.
pub fn diagnose_missing(r: &Report, exc: &Exc, symbol: &Option<Symbol>) -> (d: Diagnosis)
    ensures
        d@ == missing_diagnosis(r@, exc@, symbol_of(*symbol)),
{
    let kind = exc.simple();
    let is_class = is_class_error(kind);
    let frame = r.first_mod_frame();
    let culprit = mod_of_frame(r, frame);
    let owner = match symbol {
        Some(s) => classify_owner(r, &s.owner),
        None => OwnerKind::Unknown,
    };
    let who = label_text(culprit, "the mod in the stacktrace");
    let action = id_text(culprit, "that mod");
    let loader = r.loader.label();
    let loader_v = string_or(&r.loader_version, "?");
    let mc = string_or(&r.mc_version, "unknown");
    let cause = cause_of_missing(r, kind, &who, &owner);
    let mut evidence = new_lines();
    let mut fix = new_lines();
    let mut dev_tip = new_lines();

    match frame {
        Some(f) => push_text(
            &mut evidence,
            cat4(&f.site(), " (stacktrace line ", &decimal_text(f.index as u64), ")"),
        ),
        None => push_text(
            &mut evidence,
            cat2("no mod frame in the stacktrace; the exception is: ", &exc.text()),
        ),
    }
    match symbol {
        Some(s) => {
            if is_class {
                push_text(
                    &mut evidence,
                    cat5("missing class: ", &s.describe(), " (", &owner_label(&owner), ")"),
                );
            } else {
                push_text(
                    &mut evidence,
                    cat5("missing symbol: ", &s.describe(), " (", &owner_label(&owner), ")"),
                );
                push_text(&mut evidence, cat2("signature the mod asks for: ", &s.signature));
            }
        },
        None => {
            let msg = string_or(&exc.message, "");
            proof {
                reveal_strlit("");
                assert(""@ =~= Seq::<char>::empty());
            }
            push_text(&mut evidence, cat2("missing symbol: ", &truncate(&msg, 180)));
        },
    }
    push_entry_and_env(&mut evidence, culprit, r);

    let named = match culprit {
        Some(m) => Some(m.label()),
        None => match &owner {
            OwnerKind::OtherMod(id) => Some(
                label_text(r.mod_by_id(id), &cat2(id, " (not in this report's mod list)")),
            ),
            _ => None,
        },
    };
    let confidence = if culprit.is_some() {
        Confidence::High
    } else {
        Confidence::Medium
    };

    match &owner {
        OwnerKind::Forge => {
            push_text(
                &mut fix,
                cat7(
                    "update ",
                    loader,
                    " to the latest build for MC ",
                    &mc,
                    " (you are on ",
                    &loader_v,
                    "); the mod expects a newer API",
                ),
            );
            push_text(
                &mut fix,
                cat6("or downgrade ", &action, " to a build made for ", loader, " ", &loader_v),
            );
        },
        OwnerKind::Vanilla => {
            push_text(
                &mut fix,
                cat5(
                    "use the ",
                    &action,
                    " build for MC ",
                    &mc,
                    " (this one is compiled for another version)",
                ),
            );
            push_text(
                &mut fix,
                "if you just moved the pack to another game version, that mod was left behind: check the rest the same way".to_owned(),
            );
        },
        OwnerKind::OtherMod(other) => {
            push_text(
                &mut fix,
                cat3(
                    "install ",
                    &label_text(r.mod_by_id(other), other),
                    " on both client and server",
                ),
            );
            push_text(
                &mut fix,
                cat5(
                    "if it is already installed, the versions do not match: update ",
                    &action,
                    " or ",
                    other,
                    " until they agree",
                ),
            );
        },
        OwnerKind::Unknown => {
            push_text(
                &mut fix,
                cat6(
                    "find which mod provides that symbol and use its build for ",
                    loader,
                    " ",
                    &loader_v,
                    " + MC ",
                    &mc,
                ),
            );
            push_text(
                &mut fix,
                "if you compiled the mod yourself: rebuild it against the installed Forge".to_owned(),
            );
        },
    }

    if let Some(f) = frame {
        match symbol {
            Some(s) => push_text(
                &mut dev_tip,
                cat5(
                    "if you are a dev, open ",
                    &f.site(),
                    " and read the call to ",
                    &s.describe(),
                    ": that symbol is not in this classpath",
                ),
            ),
            None => push_text(
                &mut dev_tip,
                cat3("if you are a dev, open ", &f.site(), " and read the call that fails"),
            ),
        }
    }
    match &owner {
        OwnerKind::Forge => push_text(
            &mut dev_tip,
            cat5(
                "the name or the argument list changed in a newer Forge: rebuild against ",
                loader,
                " ",
                &loader_v,
                " (your gradle.properties), or raise the Forge dependency in mods.toml if you want the new API",
            ),
        ),
        OwnerKind::Vanilla => push_text(
            &mut dev_tip,
            "that class was compiled for another Minecraft version: check the game version in gradle.properties and recompile".to_owned(),
        ),
        OwnerKind::OtherMod(other) => push_text(
            &mut dev_tip,
            cat3(
                "pin the ",
                other,
                " version you compile against, ask its author for the new signature, or shade the API you need",
            ),
        ),
        OwnerKind::Unknown => push_text(
            &mut dev_tip,
            "diff the API you call against the version you compile against".to_owned(),
        ),
    }
    if is_class {
        push_text(
            &mut dev_tip,
            "for a missing class: declare that dependency in mods.toml (mandatory), or shade it into your jar with shadowJar and jarJar it".to_owned(),
        );
    }
    push_jar_hint(&mut dev_tip, frame);
    Diagnosis { culprit: named, cause, evidence, fix, dev_tip, confidence }
}

pub fn check_missing(r: &Report) -> (d: Option<Diagnosis>)
    ensures
        verdict_of(d) == missing_verdict(r@),
{
    match find_missing(&r.exceptions) {
        Some(exc) => {
            proof {
                reveal_strlit("");
                assert(""@ =~= Seq::<char>::empty());
            }
            let msg = string_or(&exc.message, "");
            let symbol = if is_class_error(exc.simple()) {
                match missing_class(&msg) {
                    Some(name) => parse_class(&name),
                    None => None,
                }
            } else {
                parse_symbol(&msg)
            };
            Some(diagnose_missing(r, exc, &symbol))
        },
        None => None,
    }
}

} // verus!

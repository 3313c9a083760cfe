//! What a crash report holds, and what is made of it.
use vstd::prelude::*;
use crate::text::{
    after_last, ascii_alphanumeric, ascii_lower, before_first, cat2, cat3, cat4, cat5, cat6, chars,
    contains, has, head, is_letter_or_digit, join, joined, lower, lowercase, pieces, push_text,
    same, split, starts_with, tail, text_of, text_or, texts, to_lower, CharSet,
};

verus! {

#[derive(Debug, Clone, Copy, PartialEq, Eq, Structural)]
pub enum Loader {
    Forge,
    Fabric,
    NeoForge,
    Unknown,
}

pub open spec fn loader_label(l: Loader) -> Seq<char> {
    match l {
        Loader::Forge => "Forge"@,
        Loader::Fabric => "Fabric"@,
        Loader::NeoForge => "NeoForge"@,
        Loader::Unknown => "unknown loader"@,
    }
}

impl Loader {
    pub fn label(self) -> (r: &'static str)
        ensures
            r@ == loader_label(self),
    {
        match self {
            Loader::Forge => "Forge",
            Loader::Fabric => "Fabric",
            Loader::NeoForge => "NeoForge",
            Loader::Unknown => "unknown loader",
        }
    }
}

/// A mod of the report's mod list.
#[derive(Debug)]
pub struct ModInfo {
    pub id: String,
    pub name: String,
    pub version: String,
    pub file: Option<String>,
}

pub struct ModView {
    pub id: Seq<char>,
    pub name: Seq<char>,
    pub version: Seq<char>,
    pub file: Option<Seq<char>>,
}

impl View for ModInfo {
    type V = ModView;

    open spec fn view(&self) -> ModView {
        ModView {
            id: self.id@,
            name: self.name@,
            version: self.version@,
            file: text_of(self.file),
        }
    }
}

pub open spec fn mod_label(m: ModView) -> Seq<char> {
    m.id + " "@ + m.version
}

pub open spec fn mod_detail(m: ModView) -> Seq<char> {
    let file = text_or(m.file, ""@);
    if file.len() == 0 {
        m.id + " "@ + m.version + " ("@ + m.name + ")"@
    } else {
        m.id + " "@ + m.version + " ("@ + m.name + ", "@ + file + ")"@
    }
}

impl ModInfo {
    pub fn new(id: &str, name: &str, version: &str) -> (r: Self)
        ensures
            r@ == (ModView { id: id@, name: name@, version: version@, file: None }),
    {
        Self { id: id.to_owned(), name: name.to_owned(), version: version.to_owned(), file: None }
    }

    pub fn label(&self) -> (r: String)
        ensures
            r@ == mod_label(self@),
    {
        cat3(&self.id, " ", &self.version)
    }

    pub fn detail(&self) -> (r: String)
        ensures
            r@ == mod_detail(self@),
    {
        proof {
            reveal_strlit("");
        }
        let base = cat5(&self.id, " ", &self.version, " (", &self.name);
        match &self.file {
            Some(file) => {
                if file.as_str().is_empty() {
                    cat2(&base, ")")
                } else {
                    cat4(&base, ", ", file, ")")
                }
            },
            None => cat2(&base, ")"),
        }
    }
}

/// A line of the stack trace.
#[derive(Debug)]
pub struct StackFrame {
    pub index: usize,
    pub class: String,
    pub method: String,
    pub location: Option<String>,
    pub line: Option<u32>,
    pub jar: Option<String>,
}

pub struct FrameView {
    pub index: nat,
    pub class: Seq<char>,
    pub method: Seq<char>,
    pub location: Option<Seq<char>>,
    pub line: Option<u32>,
    pub jar: Option<Seq<char>>,
}

impl View for StackFrame {
    type V = FrameView;

    open spec fn view(&self) -> FrameView {
        FrameView {
            index: self.index as nat,
            class: self.class@,
            method: self.method@,
            location: text_of(self.location),
            line: self.line,
            jar: text_of(self.jar),
        }
    }
}

pub open spec fn frame_site(f: FrameView) -> Seq<char> {
    match f.location {
        Some(loc) => f.class + "."@ + f.method + "("@ + loc + ")"@,
        None => f.class + "."@ + f.method + "()"@,
    }
}

/// Whether a class belongs to Java, the game, its loader or a library that they bring.
pub open spec fn platform_class(class: Seq<char>) -> bool {
    ||| "java."@.is_prefix_of(class)
    ||| "javax."@.is_prefix_of(class)
    ||| "jdk."@.is_prefix_of(class)
    ||| "sun."@.is_prefix_of(class)
    ||| "com.sun."@.is_prefix_of(class)
    ||| "net.minecraft."@.is_prefix_of(class)
    ||| "net.minecraftforge."@.is_prefix_of(class)
    ||| "cpw.mods."@.is_prefix_of(class)
    ||| "com.mojang."@.is_prefix_of(class)
    ||| "org.spongepowered."@.is_prefix_of(class)
    ||| "org.lwjgl"@.is_prefix_of(class)
    ||| "io.netty"@.is_prefix_of(class)
    ||| "it.unimi.dsi"@.is_prefix_of(class)
    ||| "org.apache."@.is_prefix_of(class)
}

impl StackFrame {
    pub fn site(&self) -> (r: String)
        ensures
            r@ == frame_site(self@),
    {
        match &self.location {
            Some(loc) => cat6(&self.class, ".", &self.method, "(", loc, ")"),
            None => cat4(&self.class, ".", &self.method, "()"),
        }
    }

    pub fn is_platform(&self) -> (r: bool)
        ensures
            r == platform_class(self.class@),
    {
        let class: &str = &self.class;
        starts_with(class, "java.") || starts_with(class, "javax.") || starts_with(class, "jdk.")
            || starts_with(class, "sun.") || starts_with(class, "com.sun.") || starts_with(
            class,
            "net.minecraft.",
        ) || starts_with(class, "net.minecraftforge.") || starts_with(class, "cpw.mods.")
            || starts_with(class, "com.mojang.") || starts_with(class, "org.spongepowered.")
            || starts_with(class, "org.lwjgl") || starts_with(class, "io.netty") || starts_with(
            class,
            "it.unimi.dsi",
        ) || starts_with(class, "org.apache.")
    }
}

/// An exception that the report names.
#[derive(Debug, PartialEq, Eq)]
pub struct Exc {
    pub fqcn: String,
    pub message: Option<String>,
    pub caused_by: bool,
}

pub struct ExcView {
    pub fqcn: Seq<char>,
    pub message: Option<Seq<char>>,
    pub caused_by: bool,
}

impl View for Exc {
    type V = ExcView;

    open spec fn view(&self) -> ExcView {
        ExcView {
            fqcn: self.fqcn@,
            message: text_of(self.message),
            caused_by: self.caused_by,
        }
    }
}

/// The name of an exception's class without its package.
pub open spec fn exc_simple(e: ExcView) -> Seq<char> {
    after_last(e.fqcn, CharSet::Just('.'))
}

/// Whether an exception goes by a name, with its package or without.
pub open spec fn exc_is(e: ExcView, name: Seq<char>) -> bool {
    exc_simple(e) == name || e.fqcn == name
}

pub open spec fn exc_text(e: ExcView) -> Seq<char> {
    match e.message {
        Some(msg) => e.fqcn + ": "@ + msg,
        None => e.fqcn,
    }
}

impl Exc {
    pub fn simple(&self) -> (r: &str)
        ensures
            r@ == exc_simple(self@),
    {
        tail(&self.fqcn, CharSet::Just('.'))
    }

    pub fn is(&self, simple: &str) -> (r: bool)
        ensures
            r == exc_is(self@, simple@),
    {
        same(self.simple(), simple) || same(&self.fqcn, simple)
    }

    pub fn text(&self) -> (r: String)
        ensures
            r@ == exc_text(self@),
    {
        match &self.message {
            Some(msg) => cat3(&self.fqcn, ": ", msg),
            None => self.fqcn.clone(),
        }
    }
}

/// A part of the report under a heading.
#[derive(Debug)]
pub struct Section {
    pub name: String,
    pub body: String,
}

pub struct SectionView {
    pub name: Seq<char>,
    pub body: Seq<char>,
}

impl View for Section {
    type V = SectionView;

    open spec fn view(&self) -> SectionView {
        SectionView { name: self.name@, body: self.body@ }
    }
}

/// A crash report as it was read.
#[derive(Debug)]
pub struct Report {
    pub source: String,
    pub raw: String,
    pub loader: Loader,
    pub loader_version: Option<String>,
    pub description: Option<String>,
    pub mc_version: Option<String>,
    pub java_version: Option<String>,
    pub jvm_flags: Vec<String>,
    pub xmx_mb: Option<u32>,
    pub heap_max_mb: Option<u32>,
    pub memory_line: Option<String>,
    pub mods: Vec<ModInfo>,
    pub exceptions: Vec<Exc>,
    pub frames: Vec<StackFrame>,
    pub sections: Vec<Section>,
    pub warnings: Vec<String>,
}

pub struct ReportView {
    pub source: Seq<char>,
    pub raw: Seq<char>,
    pub loader: Loader,
    pub loader_version: Option<Seq<char>>,
    pub description: Option<Seq<char>>,
    pub mc_version: Option<Seq<char>>,
    pub java_version: Option<Seq<char>>,
    pub jvm_flags: Seq<Seq<char>>,
    pub xmx_mb: Option<u32>,
    pub heap_max_mb: Option<u32>,
    pub memory_line: Option<Seq<char>>,
    pub mods: Seq<ModView>,
    pub exceptions: Seq<ExcView>,
    pub frames: Seq<FrameView>,
    pub sections: Seq<SectionView>,
    pub warnings: Seq<Seq<char>>,
}

pub open spec fn mods_of(v: Seq<ModInfo>) -> Seq<ModView> {
    v.map_values(|m: ModInfo| m@)
}

pub open spec fn excs_of(v: Seq<Exc>) -> Seq<ExcView> {
    v.map_values(|e: Exc| e@)
}

pub open spec fn frames_of(v: Seq<StackFrame>) -> Seq<FrameView> {
    v.map_values(|f: StackFrame| f@)
}

pub open spec fn sections_of(v: Seq<Section>) -> Seq<SectionView> {
    v.map_values(|s: Section| s@)
}

impl View for Report {
    type V = ReportView;

    open spec fn view(&self) -> ReportView {
        ReportView {
            source: self.source@,
            raw: self.raw@,
            loader: self.loader,
            loader_version: text_of(self.loader_version),
            description: text_of(self.description),
            mc_version: text_of(self.mc_version),
            java_version: text_of(self.java_version),
            jvm_flags: texts(self.jvm_flags@),
            xmx_mb: self.xmx_mb,
            heap_max_mb: self.heap_max_mb,
            memory_line: text_of(self.memory_line),
            mods: mods_of(self.mods@),
            exceptions: excs_of(self.exceptions@),
            frames: frames_of(self.frames@),
            sections: sections_of(self.sections@),
            warnings: texts(self.warnings@),
        }
    }
}

/// The first section whose name, which `lowered` gives in lower case, holds `needle`.
pub open spec fn section_holding(
    sections: Seq<SectionView>,
    lowered: Seq<Seq<char>>,
    needle: Seq<char>,
) -> Option<SectionView>
    decreases sections.len(),
{
    if sections.len() == 0 || lowered.len() == 0 {
        None
    } else if has(lowered[0], needle) {
        Some(sections[0])
    } else {
        section_holding(sections.skip(1), lowered.skip(1), needle)
    }
}

/// The names of sections, in lower case.
pub open spec fn lowered_names(sections: Seq<SectionView>) -> Seq<Seq<char>> {
    sections.map_values(|s: SectionView| lowercase(s.name))
}

/// The first section whose name holds `needle`, whatever the case.
pub open spec fn section_named(sections: Seq<SectionView>, needle: Seq<char>) -> Option<
    SectionView,
> {
    section_holding(sections, lowered_names(sections), lowercase(needle))
}

/// The first exception that goes by a name.
pub open spec fn exception_named(excs: Seq<ExcView>, name: Seq<char>) -> Option<ExcView>
    decreases excs.len(),
{
    if excs.len() == 0 {
        None
    } else if exc_is(excs[0], name) {
        Some(excs[0])
    } else {
        exception_named(excs.skip(1), name)
    }
}

/// The last exception that caused another one.
pub open spec fn last_cause(excs: Seq<ExcView>) -> Option<ExcView>
    decreases excs.len(),
{
    if excs.len() == 0 {
        None
    } else if excs.last().caused_by {
        Some(excs.last())
    } else {
        last_cause(excs.drop_last())
    }
}

/// The exception at the root: the last cause, or the last exception where none is a cause.
pub open spec fn root_cause_of(excs: Seq<ExcView>) -> Option<ExcView> {
    match last_cause(excs) {
        Some(e) => Some(e),
        None => if excs.len() == 0 {
            None
        } else {
            Some(excs.last())
        },
    }
}

/// A mod id as it is compared: its ASCII letters and digits, in lower case.
pub open spec fn id_key(id: Seq<char>) -> Seq<char>
    decreases id.len(),
{
    if id.len() == 0 {
        Seq::empty()
    } else if ascii_alphanumeric(id.last()) {
        id_key(id.drop_last()).push(ascii_lower(id.last()))
    } else {
        id_key(id.drop_last())
    }
}

/// The first mod whose id compares equal.
pub open spec fn mod_with_id(mods: Seq<ModView>, id: Seq<char>) -> Option<ModView>
    decreases mods.len(),
{
    if mods.len() == 0 {
        None
    } else if id_key(mods[0].id) == id_key(id) {
        Some(mods[0])
    } else {
        mod_with_id(mods.skip(1), id)
    }
}

/// The mod that the namespace of a registry id names.
pub open spec fn mod_with_namespace(mods: Seq<ModView>, registry_id: Seq<char>) -> Option<ModView> {
    mod_with_id(mods, before_first(registry_id, CharSet::Just(':')))
}

/// Whether an id is that of the game, of a loader or of a part of one.
pub open spec fn platform_id(id: Seq<char>) -> bool {
    let key = id_key(id);
    ||| key == "minecraft"@
    ||| key == "forge"@
    ||| key == "neoforge"@
    ||| key == "neoforgefml"@
    ||| key == "fabric"@
    ||| key == "fabricloader"@
    ||| key == "java"@
    ||| key == "mcp"@
    ||| key == "fml"@
    ||| key == "modlauncher"@
    ||| key == "mixin"@
}

/// Whether some part of a list compares equal to `key`.
pub open spec fn key_among(parts: Seq<Seq<char>>, key: Seq<char>) -> bool {
    exists|i: int| 0 <= i < parts.len() && id_key(#[trigger] parts[i]) == key
}

/// Whether the name of a class, in lower case, speaks of a mod: the mod's key, of three characters
/// at least, is one of the name's parts or stands somewhere in the name.
pub open spec fn claims_lowered(m: ModView, lower: Seq<char>) -> bool {
    let key = id_key(m.id);
    &&& !platform_id(m.id)
    &&& key.len() >= 3
    &&& key_among(pieces(lower, CharSet::Just('.')), key) || has(lower, key)
}

/// Of the mods that the name of a class, in lower case, speaks of, the one with the longest key,
/// and the first of these.
pub open spec fn owner_of_lowered(mods: Seq<ModView>, lower: Seq<char>) -> Option<ModView>
    decreases mods.len(),
{
    if mods.len() == 0 {
        None
    } else {
        let best = owner_of_lowered(mods.drop_last(), lower);
        let m = mods.last();
        if claims_lowered(m, lower) && (best is None || id_key(best->0.id).len() < id_key(
            m.id,
        ).len()) {
            Some(m)
        } else {
            best
        }
    }
}

/// Whether the name of a class speaks of a mod, whatever the case.
pub open spec fn claims(m: ModView, class: Seq<char>) -> bool {
    claims_lowered(m, lowercase(class))
}

/// The mod that a class belongs to.
pub open spec fn mod_owning(mods: Seq<ModView>, class: Seq<char>) -> Option<ModView> {
    owner_of_lowered(mods, lowercase(class))
}

/// The first frame of a class outside the platform that belongs to a mod.
pub open spec fn mod_frame(frames: Seq<FrameView>, mods: Seq<ModView>) -> Option<FrameView>
    decreases frames.len(),
{
    if frames.len() == 0 {
        None
    } else if !platform_class(frames[0].class) && mod_owning(mods, frames[0].class) is Some {
        Some(frames[0])
    } else {
        mod_frame(frames.skip(1), mods)
    }
}

/// The first frame of a class outside the platform.
pub open spec fn own_frame(frames: Seq<FrameView>) -> Option<FrameView>
    decreases frames.len(),
{
    if frames.len() == 0 {
        None
    } else if !platform_class(frames[0].class) {
        Some(frames[0])
    } else {
        own_frame(frames.skip(1))
    }
}

/// How many mods are not part of the platform.
pub open spec fn count_mods(mods: Seq<ModView>) -> nat
    decreases mods.len(),
{
    if mods.len() == 0 {
        0
    } else {
        count_mods(mods.drop_last()) + if platform_id(mods.last().id) {
            0nat
        } else {
            1nat
        }
    }
}

/// The loader, the game and Java, with their versions.
pub open spec fn env_parts(r: ReportView) -> Seq<Seq<char>> {
    let loader = if r.loader == Loader::Unknown {
        "unknown loader"@
    } else {
        match r.loader_version {
            Some(v) => loader_label(r.loader) + " "@ + v,
            None => loader_label(r.loader) + " (version unknown)"@,
        }
    };
    let a = Seq::<Seq<char>>::empty().push(loader);
    let b = match r.mc_version {
        Some(mc) => a.push("Minecraft "@ + mc),
        None => a,
    };
    match r.java_version {
        Some(java) => b.push("Java "@ + java),
        None => b,
    }
}

pub open spec fn env_text(r: ReportView) -> Seq<char> {
    joined(env_parts(r), " · "@)
}

impl Report {
    pub fn contains(&self, needle: &str) -> (r: bool)
        ensures
            r == has(self@.raw, needle@),
    {
        contains(&self.raw, needle)
    }

    /// The body of the first section whose name, which `lowered` gives in lower case, holds
    /// `needle`.
    pub fn section_among(&self, lowered: &Vec<String>, needle: &str) -> (r: Option<&str>)
        ensures
            match r {
                Some(body) => section_holding(self@.sections, texts(lowered@), needle@) matches Some(
                    s,
                ) && s.body == body@,
                None => section_holding(self@.sections, texts(lowered@), needle@) is None,
            },
    {
        let ghost all = self@.sections;
        let ghost names = texts(lowered@);
        let mut i: usize = 0;
        assert(all.skip(0) =~= all);
        assert(names.skip(0) =~= names);
        while i < self.sections.len() && i < lowered.len()
            invariant
                i <= self.sections.len(),
                i <= lowered.len(),
                all == sections_of(self.sections@),
                names == texts(lowered@),
                section_holding(all, names, needle@) == section_holding(
                    all.skip(i as int),
                    names.skip(i as int),
                    needle@,
                ),
            decreases self.sections.len() - i,
        {
            let s = &self.sections[i];
            assert(all.skip(i as int)[0] == s@);
            assert(names.skip(i as int)[0] == lowered@[i as int]@);
            assert(all.skip(i as int).skip(1) =~= all.skip(i + 1));
            assert(names.skip(i as int).skip(1) =~= names.skip(i + 1));
            if contains(&lowered[i], needle) {
                return Some(&s.body);
            }
            i = i + 1;
        }
        None
    }

    pub fn section(&self, name: &str) -> (r: Option<&str>)
        ensures
            match r {
                Some(body) => section_named(self@.sections, name@) matches Some(s) && s.body
                    == body@,
                None => section_named(self@.sections, name@) is None,
            },
    {
        let ghost names = lowered_names(self@.sections);
        let mut lowered: Vec<String> = Vec::new();
        let mut i: usize = 0;
        assert(texts(lowered@) =~= names.take(0));
        while i < self.sections.len()
            invariant
                i <= self.sections.len(),
                names == lowered_names(self@.sections),
                texts(lowered@) == names.take(i as int),
            decreases self.sections.len() - i,
        {
            assert(names[i as int] == lowercase(self.sections@[i as int].name@));
            push_text(&mut lowered, to_lower(&self.sections[i].name));
            assert(texts(lowered@) =~= names.take(i + 1));
            i = i + 1;
        }
        assert(names.take(i as int) =~= names);
        self.section_among(&lowered, &to_lower(name))
    }

    pub fn exception(&self, simple: &str) -> (r: Option<&Exc>)
        ensures
            match r {
                Some(e) => exception_named(self@.exceptions, simple@) == Some(e@),
                None => exception_named(self@.exceptions, simple@) is None,
            },
    {
        let ghost all = self@.exceptions;
        let mut i: usize = 0;
        assert(all.skip(0) =~= all);
        while i < self.exceptions.len()
            invariant
                i <= self.exceptions.len(),
                all == excs_of(self.exceptions@),
                exception_named(all, simple@) == exception_named(all.skip(i as int), simple@),
            decreases self.exceptions.len() - i,
        {
            let e = &self.exceptions[i];
            assert(all.skip(i as int)[0] == e@);
            assert(all.skip(i as int).skip(1) =~= all.skip(i + 1));
            if e.is(simple) {
                return Some(e);
            }
            i = i + 1;
        }
        None
    }

    pub fn root_cause(&self) -> (r: Option<&Exc>)
        ensures
            match r {
                Some(e) => root_cause_of(self@.exceptions) == Some(e@),
                None => root_cause_of(self@.exceptions) is None,
            },
    {
        let ghost all = self@.exceptions;
        let n: usize = self.exceptions.len();
        let mut i: usize = n;
        assert(all.take(n as int) =~= all);
        while i > 0
            invariant
                i <= n == self.exceptions.len(),
                all == excs_of(self.exceptions@),
                last_cause(all) == last_cause(all.take(i as int)),
            decreases i,
        {
            let e = &self.exceptions[i - 1];
            assert(all.take(i as int).last() == e@);
            assert(all.take(i as int).drop_last() =~= all.take(i - 1));
            if e.caused_by {
                return Some(e);
            }
            i = i - 1;
        }
        if n == 0 {
            None
        } else {
            assert(all.last() == self.exceptions@[n - 1]@);
            Some(&self.exceptions[n - 1])
        }
    }

    pub fn mod_by_id(&self, id: &str) -> (r: Option<&ModInfo>)
        ensures
            match r {
                Some(m) => mod_with_id(self@.mods, id@) == Some(m@),
                None => mod_with_id(self@.mods, id@) is None,
            },
    {
        let key = mod_id_key(id);
        let ghost all = self@.mods;
        let mut i: usize = 0;
        assert(all.skip(0) =~= all);
        while i < self.mods.len()
            invariant
                i <= self.mods.len(),
                all == mods_of(self.mods@),
                key@ == id_key(id@),
                mod_with_id(all, id@) == mod_with_id(all.skip(i as int), id@),
            decreases self.mods.len() - i,
        {
            let m = &self.mods[i];
            assert(all.skip(i as int)[0] == m@);
            assert(all.skip(i as int).skip(1) =~= all.skip(i + 1));
            if mod_id_key(&m.id) == key {
                return Some(m);
            }
            i = i + 1;
        }
        None
    }

    pub fn mod_for_id_like(&self, registry_id: &str) -> (r: Option<&ModInfo>)
        ensures
            match r {
                Some(m) => mod_with_namespace(self@.mods, registry_id@) == Some(m@),
                None => mod_with_namespace(self@.mods, registry_id@) is None,
            },
    {
        self.mod_by_id(head(registry_id, CharSet::Just(':')))
    }

    /// The mod that a class belongs to, by its name in lower case.
    pub fn mod_for_lowered(&self, lower: &str) -> (r: Option<&ModInfo>)
        ensures
            match r {
                Some(m) => owner_of_lowered(self@.mods, lower@) == Some(m@),
                None => owner_of_lowered(self@.mods, lower@) is None,
            },
    {
        let parts = split(lower, CharSet::Just('.'));
        let ghost all = self@.mods;
        let mut best: Option<&ModInfo> = None;
        let mut i: usize = 0;
        while i < self.mods.len()
            invariant
                i <= self.mods.len(),
                all == mods_of(self.mods@),
                texts(parts@) == pieces(lower@, CharSet::Just('.')),
                match best {
                    Some(m) => owner_of_lowered(all.take(i as int), lower@) == Some(m@),
                    None => owner_of_lowered(all.take(i as int), lower@) is None,
                },
            decreases self.mods.len() - i,
        {
            let m = &self.mods[i];
            assert(all.take(i + 1).last() == m@);
            assert(all.take(i + 1).drop_last() =~= all.take(i as int));
            let key = mod_id_key(&m.id);
            if !is_platform_mod(&m.id) && key.as_str().unicode_len() >= 3 && (among(&parts, &key)
                || contains(lower, &key)) {
                let longer = match best {
                    Some(b) => mod_id_key(&b.id).as_str().unicode_len()
                        < key.as_str().unicode_len(),
                    None => true,
                };
                if longer {
                    best = Some(m);
                }
            }
            i = i + 1;
        }
        assert(all.take(i as int) =~= all);
        best
    }

    pub fn mod_for_class(&self, class: &str) -> (r: Option<&ModInfo>)
        ensures
            match r {
                Some(m) => mod_owning(self@.mods, class@) == Some(m@),
                None => mod_owning(self@.mods, class@) is None,
            },
    {
        self.mod_for_lowered(&to_lower(class))
    }

    pub fn first_mod_frame(&self) -> (r: Option<&StackFrame>)
        ensures
            match r {
                Some(f) => mod_frame(self@.frames, self@.mods) == Some(f@),
                None => mod_frame(self@.frames, self@.mods) is None,
            },
    {
        let ghost all = self@.frames;
        let mut i: usize = 0;
        assert(all.skip(0) =~= all);
        while i < self.frames.len()
            invariant
                i <= self.frames.len(),
                all == frames_of(self.frames@),
                mod_frame(all, self@.mods) == mod_frame(all.skip(i as int), self@.mods),
            decreases self.frames.len() - i,
        {
            let f = &self.frames[i];
            assert(all.skip(i as int)[0] == f@);
            assert(all.skip(i as int).skip(1) =~= all.skip(i + 1));
            if !f.is_platform() && self.mod_for_class(&f.class).is_some() {
                return Some(f);
            }
            i = i + 1;
        }
        None
    }

    pub fn first_own_frame(&self) -> (r: Option<&StackFrame>)
        ensures
            match r {
                Some(f) => own_frame(self@.frames) == Some(f@),
                None => own_frame(self@.frames) is None,
            },
    {
        let ghost all = self@.frames;
        let mut i: usize = 0;
        assert(all.skip(0) =~= all);
        while i < self.frames.len()
            invariant
                i <= self.frames.len(),
                all == frames_of(self.frames@),
                own_frame(all) == own_frame(all.skip(i as int)),
            decreases self.frames.len() - i,
        {
            let f = &self.frames[i];
            assert(all.skip(i as int)[0] == f@);
            assert(all.skip(i as int).skip(1) =~= all.skip(i + 1));
            if !f.is_platform() {
                return Some(f);
            }
            i = i + 1;
        }
        None
    }

    pub fn mod_count(&self) -> (r: usize)
        ensures
            r == count_mods(self@.mods),
    {
        let ghost all = self@.mods;
        let mut n: usize = 0;
        let mut i: usize = 0;
        while i < self.mods.len()
            invariant
                n <= i <= self.mods.len(),
                all == mods_of(self.mods@),
                n == count_mods(all.take(i as int)),
            decreases self.mods.len() - i,
        {
            assert(all.take(i + 1).last() == self.mods@[i as int]@);
            assert(all.take(i + 1).drop_last() =~= all.take(i as int));
            if !is_platform_mod(&self.mods[i].id) {
                n = n + 1;
            }
            i = i + 1;
        }
        assert(all.take(i as int) =~= all);
        n
    }

    pub fn env_summary(&self) -> (r: String)
        ensures
            r@ == env_text(self@),
    {
        let mut parts: Vec<String> = Vec::new();
        assert(texts(parts@) =~= Seq::<Seq<char>>::empty());
        if self.loader == Loader::Unknown {
            push_text(&mut parts, "unknown loader".to_owned());
        } else {
            match &self.loader_version {
                Some(v) => push_text(&mut parts, cat3(self.loader.label(), " ", v)),
                None => push_text(&mut parts, cat2(self.loader.label(), " (version unknown)")),
            }
        }
        if let Some(mc) = &self.mc_version {
            push_text(&mut parts, cat2("Minecraft ", mc));
        }
        if let Some(java) = &self.java_version {
            push_text(&mut parts, cat2("Java ", java));
        }
        join(&parts, " · ")
    }
}

/// Whether some part of a list compares equal to `key`.
fn among(parts: &Vec<String>, key: &str) -> (r: bool)
    ensures
        r == key_among(texts(parts@), key@),
{
    let mut i: usize = 0;
    while i < parts.len()
        invariant
            i <= parts.len(),
            forall|j: int| 0 <= j < i ==> id_key(#[trigger] texts(parts@)[j]) != key@,
        decreases parts.len() - i,
    {
        if same(&mod_id_key(&parts[i]), key) {
            assert(id_key(texts(parts@)[i as int]) == key@);
            return true;
        }
        i = i + 1;
    }
    false
}

pub fn mod_id_key(id: &str) -> (r: String)
    ensures
        r@ == id_key(id@),
{
    let v = chars(id);
    let mut r = String::new();
    let mut i: usize = 0;
    while i < v.len()
        invariant
            i <= v.len(),
            v@ == id@,
            r@ == id_key(id@.take(i as int)),
        decreases v.len() - i,
    {
        assert(id@.take(i + 1).drop_last() =~= id@.take(i as int));
        if is_letter_or_digit(v[i]) {
            r.push(lower(v[i]));
        }
        i = i + 1;
    }
    assert(id@.take(i as int) =~= id@);
    r
}

pub fn is_platform_mod(id: &str) -> (r: bool)
    ensures
        r == platform_id(id@),
{
    let key = mod_id_key(id);
    same(&key, "minecraft") || same(&key, "forge") || same(&key, "neoforge") || same(
        &key,
        "neoforgefml",
    ) || same(&key, "fabric") || same(&key, "fabricloader") || same(&key, "java") || same(
        &key,
        "mcp",
    ) || same(&key, "fml") || same(&key, "modlauncher") || same(&key, "mixin")
}

/// How sure a diagnosis is.
#[derive(Debug, Clone, Copy, PartialEq, Eq, Structural)]
pub enum Confidence {
    Low,
    Medium,
    High,
}

pub open spec fn confidence_label(c: Confidence) -> Seq<char> {
    match c {
        Confidence::High => "high"@,
        Confidence::Medium => "medium"@,
        Confidence::Low => "low"@,
    }
}

pub open spec fn confidence_face(c: Confidence) -> Seq<char> {
    match c {
        Confidence::High => "( ദ്ദി ˙ᗜ˙ )"@,
        Confidence::Medium => "( ._. )"@,
        Confidence::Low => "૮(˶ㅠ︿ㅠ)ა"@,
    }
}

impl Confidence {
    pub fn label(self) -> (r: &'static str)
        ensures
            r@ == confidence_label(self),
    {
        match self {
            Confidence::High => "high",
            Confidence::Medium => "medium",
            Confidence::Low => "low",
        }
    }

    pub fn face(self) -> (r: &'static str)
        ensures
            r@ == confidence_face(self),
    {
        match self {
            Confidence::High => "( ദ്ദി ˙ᗜ˙ )",
            Confidence::Medium => "( ._. )",
            Confidence::Low => "૮(˶ㅠ︿ㅠ)ა",
        }
    }
}

/// What is made of a report: who broke the game, why, by what signs, and what to do.
#[derive(Clone)]
pub struct Diagnosis {
    pub culprit: Option<String>,
    pub cause: String,
    pub evidence: Vec<String>,
    pub fix: Vec<String>,
    pub dev_tip: Vec<String>,
    pub confidence: Confidence,
}

pub struct DiagnosisView {
    pub culprit: Option<Seq<char>>,
    pub cause: Seq<char>,
    pub evidence: Seq<Seq<char>>,
    pub fix: Seq<Seq<char>>,
    pub dev_tip: Seq<Seq<char>>,
    pub confidence: Confidence,
}

impl View for Diagnosis {
    type V = DiagnosisView;

    open spec fn view(&self) -> DiagnosisView {
        DiagnosisView {
            culprit: text_of(self.culprit),
            cause: self.cause@,
            evidence: texts(self.evidence@),
            fix: texts(self.fix@),
            dev_tip: texts(self.dev_tip@),
            confidence: self.confidence,
        }
    }
}

impl Diagnosis {
    pub fn new(culprit: Option<String>, cause: String, confidence: Confidence) -> (r: Self)
        ensures
            r@ == (DiagnosisView {
                culprit: text_of(culprit),
                cause: cause@,
                evidence: Seq::empty(),
                fix: Seq::empty(),
                dev_tip: Seq::empty(),
                confidence,
            }),
    {
        let r = Self {
            culprit,
            cause,
            evidence: Vec::new(),
            fix: Vec::new(),
            dev_tip: Vec::new(),
            confidence,
        };
        assert(r@.evidence =~= Seq::<Seq<char>>::empty());
        assert(r@.fix =~= Seq::<Seq<char>>::empty());
        assert(r@.dev_tip =~= Seq::<Seq<char>>::empty());
        r
    }
}

} // verus!

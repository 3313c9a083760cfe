use crashdoctor::model::{
    is_platform_mod, mod_id_key, Confidence, Diagnosis, Exc, Loader, ModInfo, Report, Section,
    StackFrame,
};
use crashdoctor::text::CharSet;

fn frame(index: usize, class: &str) -> StackFrame {
    StackFrame {
        index,
        class: class.to_string(),
        method: "run".to_string(),
        location: None,
        line: None,
        jar: None,
    }
}

fn report(mods: Vec<ModInfo>, frames: Vec<StackFrame>, exceptions: Vec<Exc>) -> Report {
    Report {
        source: "x.txt".to_string(),
        raw: "raw text".to_string(),
        loader: Loader::Forge,
        loader_version: None,
        description: None,
        mc_version: None,
        java_version: None,
        jvm_flags: Vec::new(),
        xmx_mb: None,
        heap_max_mb: None,
        memory_line: None,
        mods,
        exceptions,
        frames,
        sections: Vec::new(),
        warnings: Vec::new(),
    }
}

fn exc(fqcn: &str, message: Option<&str>, caused_by: bool) -> Exc {
    Exc { fqcn: fqcn.to_string(), message: message.map(|s| s.to_string()), caused_by }
}

#[test]
fn loader_labels() {
    assert_eq!(Loader::Forge.label(), "Forge");
    assert_eq!(Loader::Fabric.label(), "Fabric");
    assert_eq!(Loader::NeoForge.label(), "NeoForge");
    assert_eq!(Loader::Unknown.label(), "unknown loader");
}

#[test]
fn mods_in_words() {
    let mut m = ModInfo::new("jei", "Just Enough Items", "15.2");
    assert_eq!(m.label(), "jei 15.2");
    assert_eq!(m.detail(), "jei 15.2 (Just Enough Items)");
    m.file = Some(String::new());
    assert_eq!(m.detail(), "jei 15.2 (Just Enough Items)");
    m.file = Some("jei.jar".to_string());
    assert_eq!(m.detail(), "jei 15.2 (Just Enough Items, jei.jar)");
}

#[test]
fn frames_in_words() {
    let mut f = frame(1, "a.B");
    assert_eq!(f.site(), "a.B.run()");
    f.location = Some("B.java:3".to_string());
    assert_eq!(f.site(), "a.B.run(B.java:3)");
    assert!(!f.is_platform());
    for class in [
        "java.lang.Thread",
        "javax.X",
        "jdk.X",
        "sun.X",
        "com.sun.X",
        "net.minecraft.X",
        "net.minecraftforge.X",
        "cpw.mods.X",
        "com.mojang.X",
        "org.spongepowered.X",
        "org.lwjgl3.X",
        "io.netty.X",
        "it.unimi.dsi.X",
        "org.apache.X",
    ] {
        assert!(frame(1, class).is_platform(), "{class}");
    }
    assert!(!frame(1, "javafx.X").is_platform());
}

#[test]
fn exceptions_in_words() {
    let e = exc("java.lang.OutOfMemoryError", Some("Java heap space"), false);
    assert_eq!(e.simple(), "OutOfMemoryError");
    assert!(e.is("OutOfMemoryError"));
    assert!(e.is("java.lang.OutOfMemoryError"));
    assert!(!e.is("MemoryError"));
    assert_eq!(e.text(), "java.lang.OutOfMemoryError: Java heap space");
    assert_eq!(exc("Oops", None, false).text(), "Oops");
    assert_eq!(exc("Oops", None, false).simple(), "Oops");
}

#[test]
fn keys_of_ids() {
    assert_eq!(mod_id_key("Just-Enough_Items2"), "justenoughitems2");
    assert_eq!(mod_id_key(&mod_id_key("A-b")), mod_id_key("A-b"));
    assert_eq!(mod_id_key("A.B!c"), mod_id_key("abc"));
    assert_eq!(mod_id_key("é--"), "");
}

#[test]
fn platform_mods() {
    for id in [
        "minecraft",
        "forge",
        "neoforge",
        "neoforge-fml",
        "fabric",
        "Fabric-Loader",
        "java",
        "mcp",
        "FML",
        "modlauncher",
        "mixin",
    ] {
        assert!(is_platform_mod(id), "{id}");
    }
    assert!(!is_platform_mod("jei"));
    assert!(!is_platform_mod(""));
}

#[test]
fn mods_by_id() {
    let r = report(
        vec![
            ModInfo::new("Cobble-Golems", "first", "1"),
            ModInfo::new("cobblegolems", "second", "2"),
        ],
        Vec::new(),
        Vec::new(),
    );
    assert_eq!(r.mod_by_id("COBBLE_GOLEMS").unwrap().name, "first");
    assert_eq!(r.mod_for_id_like("cobblegolems:golem").unwrap().name, "first");
    assert_eq!(r.mod_for_id_like("cobblegolems").unwrap().name, "first");
    assert!(r.mod_by_id("cobble").is_none());
    assert!(r.mod_for_id_like("minecraft:stone").is_none());
}

#[test]
fn owners_of_classes() {
    let r = report(
        vec![
            ModInfo::new("forge", "Forge", "1"),
            ModInfo::new("ab", "too short", "1"),
            ModInfo::new("cob", "short", "1"),
            ModInfo::new("cobble", "long", "1"),
            ModInfo::new("golems", "as long", "1"),
        ],
        Vec::new(),
        Vec::new(),
    );
    assert_eq!(r.mod_for_class("com.example.Cobble.golems.X").unwrap().name, "long");
    assert_eq!(r.mod_for_class("com.cob.X").unwrap().name, "short");
    assert_eq!(r.mod_for_class("com.mygolemsmod.X").unwrap().name, "as long");
    assert!(r.mod_for_class("net.minecraftforge.ab.X").is_none());
    assert_eq!(r.mod_for_lowered("com.cob.x").unwrap().name, "short");
    assert!(r.mod_for_lowered("com.x").is_none());
}

#[test]
fn frames_of_mods() {
    let mods = vec![ModInfo::new("cobble", "C", "1")];
    let frames = vec![
        frame(1, "net.minecraft.cobble.X"),
        frame(2, "some.library.Y"),
        frame(3, "com.cobble.Z"),
    ];
    let r = report(mods, frames, Vec::new());
    assert_eq!(r.first_own_frame().unwrap().index, 2);
    assert_eq!(r.first_mod_frame().unwrap().index, 3);
    let r = report(Vec::new(), vec![frame(1, "java.X")], Vec::new());
    assert!(r.first_own_frame().is_none());
    assert!(r.first_mod_frame().is_none());
}

#[test]
fn root_causes() {
    let r = report(
        Vec::new(),
        Vec::new(),
        vec![
            exc("a.First", None, false),
            exc("a.Second", None, true),
            exc("a.Third", None, true),
            exc("a.Fourth", None, false),
        ],
    );
    assert_eq!(r.root_cause().unwrap().fqcn, "a.Third");
    assert_eq!(r.exception("Second").unwrap().fqcn, "a.Second");
    assert!(r.exception("Fifth").is_none());
    let r = report(Vec::new(), Vec::new(), vec![exc("a.A", None, false), exc("a.B", None, false)]);
    assert_eq!(r.root_cause().unwrap().fqcn, "a.B");
    assert!(report(Vec::new(), Vec::new(), Vec::new()).root_cause().is_none());
}

#[test]
fn parts_of_reports() {
    let mut r = report(
        vec![ModInfo::new("forge", "F", "1"), ModInfo::new("jei", "J", "1")],
        Vec::new(),
        Vec::new(),
    );
    r.sections.push(Section { name: "Head".to_string(), body: "h".to_string() });
    r.sections.push(Section { name: "Entity being TICKED".to_string(), body: "e".to_string() });
    assert_eq!(r.section("entity being ticked"), Some("e"));
    assert_eq!(r.section("HEAD"), Some("h"));
    assert_eq!(r.section("level"), None);
    let lowered = vec!["one".to_string(), "two".to_string()];
    assert_eq!(r.section_among(&lowered, "w"), Some("e"));
    assert_eq!(r.section_among(&lowered, "W"), None);
    assert_eq!(r.section_among(&Vec::new(), ""), None);
    assert!(r.contains("w te"));
    assert!(!r.contains("RAW"));
    assert_eq!(r.mod_count(), 1);
    assert_eq!(r.env_summary(), "Forge (version unknown)");
    r.loader_version = Some("47".to_string());
    r.mc_version = Some("1.20.1".to_string());
    r.java_version = Some("17".to_string());
    assert_eq!(r.env_summary(), "Forge 47 · Minecraft 1.20.1 · Java 17");
    r.loader = Loader::Unknown;
    assert_eq!(r.env_summary(), "unknown loader · Minecraft 1.20.1 · Java 17");
}

#[test]
fn white_space_of_unicode() {
    let listed = |n: u32| {
        matches!(
            n,
            0x9..=0xd
                | 0x20
                | 0x85
                | 0xa0
                | 0x1680
                | 0x2000..=0x200a
                | 0x2028
                | 0x2029
                | 0x202f
                | 0x205f
                | 0x3000
        )
    };
    for n in 0..=0x10ffff_u32 {
        if let Some(c) = char::from_u32(n) {
            assert_eq!(CharSet::White.contains(c), listed(n), "{n:x}");
        }
    }
}

#[test]
fn case_of_sections() {
    let mut r = report(Vec::new(), Vec::new(), Vec::new());
    for n in 0..128_u8 {
        r.sections = vec![Section { name: (n as char).to_string(), body: "b".to_string() }];
        let lower = n.to_ascii_lowercase() as char;
        assert_eq!(r.section(&lower.to_string()), Some("b"), "{n}");
    }
    r.sections = vec![Section { name: "ÄRGER".to_string(), body: "b".to_string() }];
    assert_eq!(r.section("ärger"), Some("b"));
}

#[test]
fn confidences() {
    assert_eq!(Confidence::High.label(), "high");
    assert_eq!(Confidence::Medium.label(), "medium");
    assert_eq!(Confidence::Low.label(), "low");
    assert_eq!(Confidence::High.face(), "( ദ്ദി ˙ᗜ˙ )");
    assert_eq!(Confidence::Medium.face(), "( ._. )");
    assert_eq!(Confidence::Low.face(), "૮(˶ㅠ︿ㅠ)ა");
    let d = Diagnosis::new(Some("a".to_string()), "b".to_string(), Confidence::Low);
    assert_eq!(d.culprit.as_deref(), Some("a"));
    assert_eq!(d.cause, "b");
    assert!(d.evidence.is_empty() && d.fix.is_empty() && d.dev_tip.is_empty());
    assert_eq!(d.confidence, Confidence::Low);
}

use crashdoctor::model::{Loader, ModInfo};
use crashdoctor::pattern::Groups;
use crashdoctor::report::{
    detect_loader, exception_from, file_line, flags_from, frame_from, heap_max_from,
    is_mod_entry_line, kind_from, loader_from, loader_version, loader_version_from, mod_from, parse,
    parse_exceptions, parse_file, parse_frames, parse_heap_max, parse_jvm_flags, parse_mods,
    parse_xmx, split_sections, xmx_from, LineFacts, LineKind, ModList, ParseError, SectionList,
};

const REPORT: &str = "---- Minecraft Crash Report ----
// Oops.

Time: 2024-01-01 10:00:00
Description: Ticking entity

java.lang.NullPointerException: Cannot read field \"owner\"
\tat com.example.cobble.Golem.tick(Golem.java:42) ~[cobble-1.2.3.jar%23123!/:1.2.3] {re:classloading}
\tat TRANSFORMER/net.minecraft.world.level.Level.guard(Level.java:479) ~[client-1.20.1-srg.jar%23190!/:?] {}
\tat java.lang.Thread.run(Unknown Source) ~[?:?] {}
Caused by: java.lang.IllegalStateException
\t... 12 more

-- Entity being ticked --
Details:
\tEntity Type: cobble:golem (com.example.cobble.Golem)
-- System Details --
Details:
\tMinecraft Version: 1.20.1
\tJava Version: 17.0.8, Microsoft
\tMemory: 1100000000 bytes (1049 MiB) / 2147483648 bytes (2048 MiB) up to 4294967296 bytes (4,096 MiB)
\tJVM Flags: 3 total; -XX:HeapDumpPath=x -Xss1M -Xmx4G
\tMod List:
\t\tclient-1.20.1-srg.jar |Minecraft |minecraft |1.20.1 |DONE |Manifest
\t\tcobble-1.2.3.jar |Cobble Golems |cobble |1.2.3 |DONE |Manifest: NOSIGNATURE
\t\tforge-1.20.1-47.2.0.jar |Forge |forge |47.2.0 |DONE |Manifest
\t\tcobble-again.jar |Cobble Again |cobble |9.9.9 |DONE |Manifest
\tCrash Report UUID: 1234
";

fn groups(parts: &[Option<&str>]) -> Option<Groups> {
    Some(Groups {
        parts: parts.iter().map(|p| p.map(|s| s.to_string())).collect(),
    })
}

#[test]
fn whole_report() {
    let r = match parse(REPORT, "crash.txt") {
        Ok(r) => r,
        Err(e) => panic!("{}", e.message()),
    };
    assert_eq!(r.source, "crash.txt");
    assert_eq!(r.raw, REPORT);
    assert_eq!(r.loader, Loader::Forge);
    assert_eq!(r.loader_version.as_deref(), Some("47.2.0"));
    assert_eq!(r.description.as_deref(), Some("Ticking entity"));
    assert_eq!(r.mc_version.as_deref(), Some("1.20.1"));
    assert_eq!(r.java_version.as_deref(), Some("17.0.8, Microsoft"));
    assert_eq!(r.jvm_flags, vec!["-XX:HeapDumpPath=x", "-Xss1M", "-Xmx4G"]);
    assert_eq!(r.xmx_mb, Some(4096));
    assert_eq!(r.heap_max_mb, Some(4096));
    assert_eq!(
        r.memory_line.as_deref(),
        Some("1100000000 bytes (1049 MiB) / 2147483648 bytes (2048 MiB) up to 4294967296 bytes (4,096 MiB)")
    );
    let ids: Vec<&str> = r.mods.iter().map(|m| m.id.as_str()).collect();
    assert_eq!(ids, vec!["minecraft", "cobble", "forge"]);
    assert_eq!(r.mods[1].version, "1.2.3");
    assert_eq!(r.mods[1].name, "Cobble Golems");
    assert_eq!(r.mods[1].file.as_deref(), Some("cobble-1.2.3.jar"));
    assert_eq!(r.exceptions.len(), 2);
    assert_eq!(r.exceptions[0].fqcn, "java.lang.NullPointerException");
    assert_eq!(r.exceptions[0].message.as_deref(), Some("Cannot read field \"owner\""));
    assert!(!r.exceptions[0].caused_by);
    assert_eq!(r.exceptions[1].fqcn, "java.lang.IllegalStateException");
    assert_eq!(r.exceptions[1].message, None);
    assert!(r.exceptions[1].caused_by);
    let names: Vec<&str> = r.sections.iter().map(|s| s.name.as_str()).collect();
    assert_eq!(names, vec!["Entity being ticked", "System Details"]);
    assert!(r.warnings.is_empty());
}

#[test]
fn frames_are_numbered_from_one() {
    let frames = parse_frames(REPORT);
    assert_eq!(frames.len(), 3);
    for (i, f) in frames.iter().enumerate() {
        assert_eq!(f.index, i + 1);
    }
    assert_eq!(frames[0].class, "com.example.cobble.Golem");
    assert_eq!(frames[0].method, "tick");
    assert_eq!(frames[0].location.as_deref(), Some("Golem.java:42"));
    assert_eq!(frames[0].line, Some(42));
    assert_eq!(frames[0].jar.as_deref(), Some("cobble-1.2.3.jar"));
    assert_eq!(frames[1].class, "net.minecraft.world.level.Level");
    assert_eq!(frames[1].jar.as_deref(), Some("client-1.20.1-srg.jar"));
    assert_eq!(frames[2].location.as_deref(), Some("Unknown Source"));
    assert_eq!(frames[2].line, None);
    assert_eq!(frames[2].jar, None);
}

#[test]
fn frame_out_of_groups() {
    let whole = groups(&[Some("x"), Some("a.B"), Some("c"), Some("  "), None]);
    let f = frame_from(&whole, 7).unwrap();
    assert_eq!((f.index, f.class.as_str(), f.method.as_str()), (7, "a.B", "c"));
    assert_eq!(f.location, None);
    assert_eq!(f.line, None);
    assert_eq!(f.jar, None);
    assert!(frame_from(&None, 1).is_none());
    assert!(frame_from(&groups(&[Some("x"), Some("a.B")]), 1).is_none());
}

#[test]
fn line_numbers() {
    assert_eq!(file_line("Golem.java:42"), Some(42));
    assert_eq!(file_line("a:b: 7 "), Some(7));
    assert_eq!(file_line("Native Method"), None);
    assert_eq!(file_line("Golem.java:x"), None);
    assert_eq!(file_line("Golem.java:4294967295"), Some(4294967295));
    assert_eq!(file_line("Golem.java:4294967296"), None);
}

#[test]
fn not_a_report() {
    match parse("hello\nworld\n", "note.txt") {
        Ok(_) => panic!("that is no report"),
        Err(e) => {
            assert_eq!(
                e.message(),
                "\"note.txt\" does not look like a Minecraft crash report: no \"Description:\", no stacktrace (\"at ...\"), no \"-- ... --\" sections and no mod list. Is this a complete crash report?"
            );
            assert!(matches!(e, ParseError::NotAReport { .. }));
        }
    }
    assert!(parse("Description: x\n", "a").is_ok());
    assert!(parse("-- Head --\n", "a").is_ok());
    assert!(parse("\tat a.B.c()\n", "a").is_ok());
    assert!(parse("a.BException\n", "a").is_ok());
    assert!(parse("Mod List:\n\tx 1\n", "a").is_ok());
}

#[test]
fn unreadable_file() {
    match parse_file("gone.txt", Err("No such file or directory (os error 2)".to_string())) {
        Ok(_) => panic!("nothing was read"),
        Err(e) => {
            assert_eq!(
                e.message(),
                "could not read \"gone.txt\": No such file or directory (os error 2)"
            );
            assert!(matches!(e, ParseError::Io { .. }));
        }
    }
}

#[test]
fn file_with_mark_and_carriage_returns() {
    let bytes = "\u{feff}Description: Boom\r\n-- Head --\r\nline\r\n".as_bytes().to_vec();
    let r = match parse_file("a.txt", Ok(bytes)) {
        Ok(r) => r,
        Err(e) => panic!("{}", e.message()),
    };
    assert_eq!(r.raw, "Description: Boom\n-- Head --\nline\n");
    assert_eq!(r.description.as_deref(), Some("Boom"));
    assert_eq!(r.sections[0].body, "line\n");
}

#[test]
fn file_that_is_not_utf8() {
    let r = match parse_file("a.txt", Ok(b"Description: B\xffm\n".to_vec())) {
        Ok(r) => r,
        Err(e) => panic!("{}", e.message()),
    };
    assert_eq!(r.description.as_deref(), Some("B\u{fffd}m"));
}

#[test]
fn warnings_of_a_bare_report() {
    let r = match parse("a.b.CError: oops\n", "x") {
        Ok(r) => r,
        Err(e) => panic!("{}", e.message()),
    };
    assert_eq!(
        r.warnings,
        vec![
            "no \"Description:\" line (truncated report?)",
            "no \"-- ... --\" sections at all",
            "no \"at ...\" frames: nothing to read in the stacktrace",
            "no mod list (\"Mod List:\"): cannot cross-reference versions",
            "no \"-Xmx\" in the JVM Flags",
            "no \"-- System Details --\" section",
            "could not tell the loader apart (Forge, Fabric, NeoForge?)",
        ]
    );
}

#[test]
fn sections_and_their_lines() {
    let s = split_sections("before\n-- Head --\na\nb\n--Affected level--\nc\n-- --\n-----\n");
    let got: Vec<(&str, &str)> = s.iter().map(|s| (s.name.as_str(), s.body.as_str())).collect();
    assert_eq!(got, vec![("Head", "a\nb\n"), ("Affected level", "c\n-- --\n-----\n")]);
    assert!(split_sections("no heading\n").is_empty());
}

#[test]
fn section_list_by_hand() {
    let l = SectionList::new().add("lost", None);
    let l = l.add("-- A --", Some("A".to_string())).add("x", None).add("y", None);
    let s = l.add("-- B --", Some("B".to_string())).finish();
    assert_eq!(s.len(), 2);
    assert_eq!((s[0].name.as_str(), s[0].body.as_str()), ("A", "x\ny\n"));
    assert_eq!((s[1].name.as_str(), s[1].body.as_str()), ("B", ""));
}

#[test]
fn exceptions_are_listed_once() {
    let text = "a.BException: x\n  a.BException: x  \nCaused by: a.BException: x\n\tat a.BException\n... a.CError\nCaused by:   d.EFailure:   \nnot.an.exception here\n";
    let e = parse_exceptions(text);
    let got: Vec<(&str, Option<&str>, bool)> = e
        .iter()
        .map(|e| (e.fqcn.as_str(), e.message.as_deref(), e.caused_by))
        .collect();
    assert_eq!(
        got,
        vec![
            ("a.BException", Some("x"), false),
            ("a.BException", Some("x"), true),
            ("d.EFailure", None, true),
        ]
    );
}

#[test]
fn exception_out_of_groups() {
    let e = exception_from(&groups(&[Some("w"), Some("a.B"), Some(" m ")]), true).unwrap();
    assert_eq!((e.fqcn.as_str(), e.message.as_deref(), e.caused_by), ("a.B", Some("m"), true));
    assert!(exception_from(&None, false).is_none());
}

#[test]
fn mod_lists() {
    let text = "Mods:\n\tCobble | cobble | 1.0\n\n\tbad | | 1\n\t(jei 15.2)\n\tlib.jar 2.0\n\tkey: value\n\tafter 3.0\n";
    let mods = parse_mods(text);
    let got: Vec<(&str, &str, &str)> = mods
        .iter()
        .map(|m| (m.id.as_str(), m.name.as_str(), m.version.as_str()))
        .collect();
    assert_eq!(
        got,
        vec![("cobble", "Cobble", "1.0"), ("jei", "jei", "15.2"), ("lib", "lib", "2.0")]
    );
    assert!(parse_mods("\tCobble | cobble | 1.0\n").is_empty());
}

#[test]
fn mod_entries() {
    let four = mod_from("\tf.jar |Name |id |1.0 |DONE, ", &None, false).unwrap();
    assert_eq!((four.id.as_str(), four.file.as_deref()), ("id", Some("f.jar")));
    let no_file = mod_from(" |Name |id |1.0", &None, false).unwrap();
    assert_eq!(no_file.file, None);
    assert!(mod_from("a|b", &None, false).is_none());
    assert!(mod_from("  // note", &None, false).is_none());
    assert!(mod_from("  ,, ", &None, false).is_none());
    assert!(mod_from("  a b", &None, false).is_none());
    assert!(mod_from("  a", &None, false).is_none());
    assert!(mod_from("  a 1", &None, true).is_none());
    let paren = mod_from("(a 1)", &groups(&[Some("(a 1)"), Some("a"), Some("1")]), true).unwrap();
    assert_eq!(paren.label(), "a 1");
    let jar = mod_from("  a.jar 1x", &None, false).unwrap();
    assert_eq!(jar.label(), "a 1x");
}

#[test]
fn entry_lines() {
    assert!(is_mod_entry_line("a|b", true));
    assert!(is_mod_entry_line("\tx", false));
    assert!(is_mod_entry_line("  x", false));
    assert!(!is_mod_entry_line("\tx", true));
    assert!(!is_mod_entry_line(" x", false));
}

#[test]
fn line_kinds_and_the_list() {
    let facts = |header: bool, heading: bool, pair: bool| LineFacts {
        header,
        heading,
        pair,
        body_pair: false,
        paren: None,
    };
    assert!(matches!(kind_from("Mods:", &facts(true, true, false)), LineKind::Header));
    assert!(matches!(kind_from("-- A --", &facts(false, true, false)), LineKind::Heading));
    assert!(matches!(kind_from("  ", &facts(false, false, false)), LineKind::Blank));
    assert!(matches!(kind_from("x", &facts(false, false, false)), LineKind::Foreign));
    assert!(matches!(kind_from("\tx", &facts(false, false, false)), LineKind::Entry(None)));
    let mut l = ModList::new();
    l.add(LineKind::Entry(Some(ModInfo::new("a", "A", "1"))));
    assert!(l.mods.is_empty());
    l.add(LineKind::Header);
    l.add(LineKind::Entry(Some(ModInfo::new("a", "A", "1"))));
    l.add(LineKind::Blank);
    l.add(LineKind::Entry(Some(ModInfo::new("a", "A", "2"))));
    l.add(LineKind::Entry(None));
    l.add(LineKind::Entry(Some(ModInfo::new("b", "B", "1"))));
    l.add(LineKind::Foreign);
    l.add(LineKind::Entry(Some(ModInfo::new("c", "C", "1"))));
    l.add(LineKind::Header);
    l.add(LineKind::Heading);
    l.add(LineKind::Entry(Some(ModInfo::new("d", "D", "1"))));
    let got: Vec<String> = l.mods.iter().map(|m| m.label()).collect();
    assert_eq!(got, vec!["a 1", "b 1"]);
}

#[test]
fn loaders() {
    let forge = vec![ModInfo::new("forge", "Forge", "47")];
    let neo = vec![ModInfo::new("forge", "Forge", "47"), ModInfo::new("Neo-Forge", "N", "20")];
    let none: Vec<ModInfo> = Vec::new();
    assert_eq!(detect_loader("", &forge), Loader::Forge);
    assert_eq!(detect_loader("", &neo), Loader::NeoForge);
    assert_eq!(detect_loader("uses NEOFORGE", &none), Loader::NeoForge);
    assert_eq!(detect_loader("neo-forge", &none), Loader::NeoForge);
    assert_eq!(detect_loader("net.MinecraftForge.x", &none), Loader::Forge);
    assert_eq!(detect_loader("ModLauncher running", &none), Loader::Forge);
    assert_eq!(detect_loader("forge-1.20", &none), Loader::Forge);
    assert_eq!(detect_loader("net.fabricmc.loader", &none), Loader::Fabric);
    assert_eq!(detect_loader("FabricLoader", &none), Loader::Fabric);
    assert_eq!(detect_loader("vanilla", &none), Loader::Unknown);
    assert_eq!(loader_from("net.fabricmc.x", &none), Loader::Fabric);
    assert_eq!(loader_from("NEOFORGE", &none), Loader::Unknown);
    assert_eq!(loader_from("neoforge", &forge), Loader::Forge);
}

#[test]
fn loader_versions() {
    let both = vec![ModInfo::new("forge", "F", "47"), ModInfo::new("neoforge", "N", "20")];
    let none: Vec<ModInfo> = Vec::new();
    assert_eq!(loader_version("", &both, Loader::NeoForge).as_deref(), Some("20"));
    assert_eq!(loader_version("", &both, Loader::Forge).as_deref(), Some("47"));
    assert_eq!(loader_version("", &both, Loader::Unknown).as_deref(), Some("47"));
    let fabric = vec![ModInfo::new("fabric-loader", "L", "0.15")];
    assert_eq!(loader_version("", &fabric, Loader::Fabric).as_deref(), Some("0.15"));
    let text = "\tLaunched Version: forge-47.1.0\n";
    assert_eq!(loader_version(text, &none, Loader::Forge).as_deref(), Some("47.1.0"));
    let jar = "at x ~[forge-1.20.1-47.2.20-universal.jar]";
    assert_eq!(loader_version(jar, &none, Loader::Forge).as_deref(), Some("47.2.20"));
    assert_eq!(loader_version("", &none, Loader::Forge), None);
    let launched = groups(&[Some("x"), Some(" ")]);
    let found = groups(&[Some("x"), Some("beta")]);
    assert_eq!(loader_version_from(&none, Loader::Forge, &launched, &found), None);
    let found = groups(&[Some("x"), Some("b1")]);
    assert_eq!(
        loader_version_from(&none, Loader::Forge, &launched, &found).as_deref(),
        Some("b1")
    );
}

#[test]
fn java_flags() {
    assert_eq!(
        parse_jvm_flags("\tJVM Flags: 2 total; -Xmx2G  word -Da=b\n"),
        vec!["-Xmx2G", "-Da=b"]
    );
    assert!(parse_jvm_flags("JVM Flags: none\n").is_empty());
    assert!(flags_from(&None).is_empty());
    assert_eq!(flags_from(&Some(" -a b -c ".to_string())), vec!["-a", "-c"]);
}

#[test]
fn heap_limits() {
    assert_eq!(parse_xmx("-Xmx4G"), Some(4096));
    assert_eq!(parse_xmx("-Xmx512m"), Some(512));
    assert_eq!(parse_xmx("-Xmx2097152k"), Some(2048));
    assert_eq!(parse_xmx("-Xmx2147483648"), Some(2048));
    assert_eq!(parse_xmx("-Xmx0"), None);
    assert_eq!(parse_xmx("-Xmx512k"), None);
    assert_eq!(parse_xmx("-Xmx4294967296"), None);
    assert_eq!(parse_xmx("-Xmx4194304g"), Some(4294967295));
    assert_eq!(parse_xmx("-Xmx4194303g"), Some(4294966272));
    assert_eq!(parse_xmx("-Xms4G"), None);
    assert_eq!(xmx_from(&groups(&[Some("w"), Some("3"), Some("G")])), Some(3072));
    assert_eq!(xmx_from(&groups(&[Some("w"), Some("3")])), None);
    assert_eq!(xmx_from(&None), None);
}

#[test]
fn heap_maxima() {
    assert_eq!(parse_heap_max("1 / 2 up to 99 bytes (8,192 MiB)"), Some(8192));
    assert_eq!(parse_heap_max("1 / 2"), None);
    assert_eq!(heap_max_from(&groups(&[Some("w"), Some("1,2,3")])), Some(123));
    assert_eq!(heap_max_from(&groups(&[Some("w"), Some("4294967296")])), None);
    assert_eq!(heap_max_from(&None), None);
}

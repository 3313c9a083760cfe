use crashdoctor::model::{Confidence, Diagnosis, Exc, Loader, ModInfo, Report, StackFrame};
use crashdoctor::pattern::Groups;
use crashdoctor::report::parse;
use crashdoctor::rules::common::{is_platform_jar, is_platform_jar_lowered, jar_hint, preview};
use crashdoctor::rules::fallback::guess_from_frames;
use crashdoctor::rules::mixin::{diagnose_mixin, mod_id_from_config, MixinSigns};
use crashdoctor::rules::mod_load::{
    classify_failure, diagnose_mod_load, failure_from, file_name, mod_id_from_jar,
    says_loading_failed, FailureSigns, LoadSigns, ModFailure,
};
use crashdoctor::rules::registry::{
    diagnose_registry, line_role, missing_registry_ids, LineRole, MissingIds,
};
use crashdoctor::rules::symbol::{
    classify_owner, diagnose_missing, missing_class, missing_class_from, owner_label, parse_class,
    parse_symbol, symbol_from, OwnerKind, Symbol,
};
use crashdoctor::rules::oom::diagnose_oom;
use crashdoctor::rules::ticking::{diagnose_tick, speaks_of_tick, TickSigns};
use crashdoctor::rules::{diagnose, evaluate, rules, Rule};

fn groups(parts: &[Option<&str>]) -> Option<Groups> {
    Some(Groups {
        parts: parts.iter().map(|p| p.map(|s| s.to_string())).collect(),
    })
}

fn read(text: &str) -> Report {
    match parse(text, "crash.txt") {
        Ok(r) => r,
        Err(e) => panic!("{}", e.message()),
    }
}

fn bare() -> Report {
    Report {
        source: "x.txt".to_string(),
        raw: String::new(),
        loader: Loader::Forge,
        loader_version: Some("47.2.0".to_string()),
        description: None,
        mc_version: Some("1.20.1".to_string()),
        java_version: None,
        jvm_flags: Vec::new(),
        xmx_mb: None,
        heap_max_mb: None,
        memory_line: None,
        mods: vec![ModInfo::new("cobble", "Cobble Golems", "1.2.3")],
        exceptions: Vec::new(),
        frames: Vec::new(),
        sections: Vec::new(),
        warnings: Vec::new(),
    }
}

fn frame(index: usize, class: &str, jar: Option<&str>) -> StackFrame {
    StackFrame {
        index,
        class: class.to_string(),
        method: "tick".to_string(),
        location: Some(format!("F.java:{index}")),
        line: None,
        jar: jar.map(|s| s.to_string()),
    }
}

fn exc(fqcn: &str, message: Option<&str>) -> Exc {
    Exc { fqcn: fqcn.to_string(), message: message.map(|s| s.to_string()), caused_by: false }
}

fn run(name: &str, r: &Report) -> Option<Diagnosis> {
    for rule in rules() {
        if rule.name() == name {
            return rule.check(r);
        }
    }
    panic!("no rule {name}");
}

const JAR_HINT: &str = "to read that class: java -jar vineflower.jar -dgs=1 cobble-1.2.3.jar out/ (Vineflower, or FernFlower), or Ctrl+click the class in IntelliJ with the Minecraft Development plugin";

#[test]
fn rules_in_order() {
    let all = rules();
    let names: Vec<&str> = all.iter().map(|r| r.name()).collect();
    assert_eq!(
        names,
        vec![
            "out of memory",
            "missing symbol (NoSuchMethodError/NoSuchFieldError/NoClassDefFoundError)",
            "mixin apply failure",
            "mod loading failure",
            "registry mismatch",
            "entity/block entity tick",
            "no rule matched (package guess)",
        ]
    );
}

#[test]
fn out_of_memory() {
    let mut r = bare();
    r.exceptions.push(exc("java.lang.OutOfMemoryError", Some("Java heap space")));
    r.memory_line = Some("1 / 2".to_string());
    r.xmx_mb = Some(2048);
    let d = run("out of memory", &r).unwrap();
    assert_eq!(d.culprit.as_deref(), Some("no mod: the JVM ran out of memory"));
    assert_eq!(
        d.cause,
        "OutOfMemoryError (Java heap space). The heap hit its ceiling, so the game ran out of RAM"
    );
    assert_eq!(
        d.evidence,
        vec![
            "exception: java.lang.OutOfMemoryError: Java heap space",
            "memory at crash: 1 / 2",
            "1 mods loaded",
            "-Xmx now: 2048 MB (from JVM Flags)",
        ]
    );
    assert_eq!(
        d.fix,
        vec![
            "raise -Xmx from 2048M to 4096M (launcher -> Installations -> Edit -> JVM arguments)",
            "with that many mods, 4096M is a sane starting point for 1.20.1",
        ]
    );
    assert_eq!(d.dev_tip.len(), 2);
    assert_eq!(d.confidence, Confidence::High);
}

#[test]
fn out_of_memory_with_a_large_heap() {
    let mut r = bare();
    r.exceptions.push(exc("java.lang.OutOfMemoryError", None));
    for (now, next) in [(6144u32, 8192u32), (8192, 12288), (4294967295, 4294967295)] {
        r.xmx_mb = Some(now);
        let d = run("out of memory", &r).unwrap();
        assert_eq!(d.fix[0], format!("you already had {now}M of heap: hunt the leak (a mod holding chunks or entities) instead of raising it"));
        assert_eq!(d.fix[1], format!("if you still want to try, go to {next}M with -Xmx{next}M"));
    }
    r.xmx_mb = Some(4096);
    assert_eq!(
        run("out of memory", &r).unwrap().fix[0],
        "raise -Xmx from 4096M to 8192M (launcher -> Installations -> Edit -> JVM arguments)"
    );
}

#[test]
fn out_of_metaspace() {
    let mut r = bare();
    r.exceptions.push(exc("java.lang.OutOfMemoryError", Some("MetaSpace")));
    let d = run("out of memory", &r).unwrap();
    assert_eq!(
        d.cause,
        "OutOfMemoryError (MetaSpace). The JVM ran out of Metaspace, the space that holds class metadata"
    );
    assert!(d.evidence.contains(&"no -Xmx in the JVM Flags".to_string()));
    assert_eq!(
        d.fix[0],
        "raise the class metadata space: -XX:MaxMetaspaceSize=1024m (or drop mods)"
    );
    assert_eq!(d.dev_tip.len(), 1);
    r.exceptions[0].message = Some("Compressed class space".to_string());
    assert_eq!(run("out of memory", &r).unwrap().dev_tip.len(), 1);
}

#[test]
fn out_of_memory_comes_first() {
    let text = "-- Head --\njava.lang.NoSuchMethodError: 'void net.minecraft.A.b()'\nCaused by: java.lang.OutOfMemoryError: x\n\tat com.cobble.A.b(A.java:1)\nMod List:\n\tCobble | cobble | 1.0\n";
    let r = read(text);
    let e = evaluate(&r);
    assert_eq!(e.diagnosis.culprit.as_deref(), Some("no mod: the JVM ran out of memory"));
    assert_eq!(diagnose(&r).cause, e.diagnosis.cause);
    let hits: Vec<bool> = e.checks.iter().map(|c| c.1).collect();
    assert_eq!(hits, vec![true, true, false, false, false, false, true]);
}

#[test]
fn first_high_verdict_counts() {
    let text = "java.lang.NoSuchMethodError: 'void net.minecraft.A.b()'\nFailure message: Cobble (cobble) has failed to load\nMod List:\n\tCobble | cobble | 1.0\n";
    let r = read(text);
    let medium = run("missing symbol (NoSuchMethodError/NoSuchFieldError/NoClassDefFoundError)", &r);
    assert_eq!(medium.unwrap().confidence, Confidence::Medium);
    let high = run("mod loading failure", &r).unwrap();
    assert_eq!(high.confidence, Confidence::High);
    assert_eq!(evaluate(&r).diagnosis.cause, high.cause);
}

#[test]
fn missing_method() {
    let mut r = bare();
    r.exceptions.push(exc(
        "java.lang.NoSuchMethodError",
        Some("'void net.minecraftforge.common.Foo.bar(int)'"),
    ));
    r.frames.push(frame(3, "com.cobble.Golem", Some("cobble-1.2.3.jar")));
    let d = run("missing symbol (NoSuchMethodError/NoSuchFieldError/NoClassDefFoundError)", &r).unwrap();
    assert_eq!(d.culprit.as_deref(), Some("cobble 1.2.3"));
    assert_eq!(
        d.cause,
        "NoSuchMethodError: the mod asks for a Forge symbol this build does not have"
    );
    assert_eq!(
        d.evidence,
        vec![
            "com.cobble.Golem.tick(F.java:3) (stacktrace line 3)",
            "missing symbol: net.minecraftforge.common.Foo.bar() (Forge class)",
            "signature the mod asks for: void net.minecraftforge.common.Foo.bar(int)",
            "mod entry: cobble 1.2.3 (Cobble Golems)",
            "environment: Forge 47.2.0 · Minecraft 1.20.1",
        ]
    );
    assert_eq!(
        d.fix,
        vec![
            "update Forge to the latest build for MC 1.20.1 (you are on 47.2.0); the mod expects a newer API",
            "or downgrade cobble to a build made for Forge 47.2.0",
        ]
    );
    assert_eq!(
        d.dev_tip,
        vec![
            "if you are a dev, open com.cobble.Golem.tick(F.java:3) and read the call to net.minecraftforge.common.Foo.bar(): that symbol is not in this classpath",
            "the name or the argument list changed in a newer Forge: rebuild against Forge 47.2.0 (your gradle.properties), or raise the Forge dependency in mods.toml if you want the new API",
            JAR_HINT,
        ]
    );
    assert_eq!(d.confidence, Confidence::High);
}

#[test]
fn missing_class_of_a_mod() {
    let mut r = bare();
    r.exceptions.push(exc("java.lang.NoClassDefFoundError", Some("com/x com.cobble.api.Thing")));
    let d = run("missing symbol (NoSuchMethodError/NoSuchFieldError/NoClassDefFoundError)", &r).unwrap();
    assert_eq!(d.culprit.as_deref(), Some("cobble 1.2.3"));
    assert_eq!(d.confidence, Confidence::Medium);
    assert_eq!(
        d.cause,
        "NoClassDefFoundError: the mod in the stacktrace needs a class that cobble ships and that mod is not loaded (missing dependency)"
    );
    assert_eq!(
        d.evidence[0],
        "no mod frame in the stacktrace; the exception is: java.lang.NoClassDefFoundError: com/x com.cobble.api.Thing"
    );
    assert_eq!(d.evidence[1], "missing class: com.cobble.api.Thing (class of mod cobble)");
    assert_eq!(d.fix[0], "install cobble 1.2.3 on both client and server");
    assert_eq!(d.dev_tip.len(), 2);
}

#[test]
fn missing_symbol_unread() {
    let r = bare();
    let e = exc("java.lang.NoSuchFieldError", Some("x"));
    let d = diagnose_missing(&r, &e, &None);
    assert_eq!(d.culprit, None);
    assert_eq!(
        d.cause,
        "NoSuchFieldError: a symbol is missing from the classpath. the mod in the stacktrace was compiled against another Forge/Minecraft version"
    );
    assert_eq!(d.evidence[1], "missing symbol: x");
    let vanilla = Some(Symbol {
        owner: "net.minecraft.A".to_string(),
        name: "f".to_string(),
        signature: "s".to_string(),
        is_method: false,
    });
    let d = diagnose_missing(&r, &e, &vanilla);
    assert_eq!(d.evidence[1], "missing symbol: net.minecraft.A.f (Minecraft vanilla class)");
    assert_eq!(
        d.fix[0],
        "use the that mod build for MC 1.20.1 (this one is compiled for another version)"
    );
}

#[test]
fn symbols() {
    let s = parse_symbol("'void a.b.C.d(int)'").unwrap();
    assert_eq!((s.owner.as_str(), s.name.as_str(), s.is_method), ("a.b.C", "d", true));
    assert_eq!(s.signature, "void a.b.C.d(int)");
    assert_eq!(s.describe(), "a.b.C.d()");
    let s = parse_symbol("int a.b.C.FIELD").unwrap();
    assert_eq!(s.describe(), "a.b.C.FIELD");
    assert!(parse_symbol(" '' ").is_none());
    assert!(parse_symbol("nothing").is_none());
    let s = symbol_from("x", &None, &groups(&[Some("w"), Some("o"), Some("n")])).unwrap();
    assert_eq!(s.describe(), "o.n");
    assert!(symbol_from("x", &None, &None).is_none());
    assert!(symbol_from("  ", &groups(&[Some("w"), Some("o"), Some("n")]), &None).is_none());
    let c = parse_class(" 'a.B' ").unwrap();
    assert_eq!((c.describe().as_str(), c.signature.as_str()), ("a.B", "a.B"));
    assert!(parse_class("AB").is_none());
}

#[test]
fn missing_classes() {
    assert_eq!(
        missing_class("java.lang.ClassNotFoundException: a.b.C here").as_deref(),
        Some("a.b.C")
    );
    assert_eq!(missing_class("look at a.B and (c.D) now").as_deref(), Some("a.B"));
    assert_eq!(missing_class("[x.Y],").as_deref(), Some("x.Y"));
    assert_eq!(missing_class("none"), None);
    assert_eq!(
        missing_class_from("a.B", &groups(&[Some("w"), Some("c.D")])).as_deref(),
        Some("c.D")
    );
}

#[test]
fn owners() {
    let r = bare();
    assert!(matches!(classify_owner(&r, "net.minecraft.A"), OwnerKind::Vanilla));
    assert!(matches!(classify_owner(&r, "com.mojang.A"), OwnerKind::Vanilla));
    assert!(matches!(classify_owner(&r, "net.minecraftforge.A"), OwnerKind::Forge));
    assert!(matches!(classify_owner(&r, "cpw.mods.A"), OwnerKind::Forge));
    assert!(matches!(classify_owner(&r, "x.cobble.A"), OwnerKind::OtherMod(_)));
    assert!(matches!(classify_owner(&r, "x.Y"), OwnerKind::Unknown));
    assert_eq!(owner_label(&classify_owner(&r, "x.cobble.A")), "class of mod cobble");
    assert_eq!(owner_label(&OwnerKind::Unknown), "class from an unknown package");
}

#[test]
fn mixin_that_failed() {
    let text = "org.spongepowered.asm.mixin.transformer.throwables.MixinTransformerError: An unexpected critical error\nMixin apply for mod cobble failed: cobble.mixins.json:GolemMixin from mod cobble -> net.minecraft.Golem: @Inject annotation on tick could not find any targets (0/1) succeeded.\nMod List:\n\tCobble | cobble | 1.0\n";
    let r = read(text);
    let d = run("mixin apply failure", &r).unwrap();
    assert_eq!(d.culprit.as_deref(), Some("cobble 1.0"));
    assert_eq!(
        d.cause,
        "Mixin apply failed: cobble's mixin could not be applied to the vanilla class net.minecraft.Golem, and the injection no longer matches those targets. Either the Forge/MC build moved or another mod patches the same class"
    );
    assert_eq!(
        d.evidence,
        vec![
            "mixin config: cobble.mixins.json",
            "mixin: cobble -> net.minecraft.Golem",
            "injection: @Inject on tick() matched 0/1 targets",
            "error: cobble.mixins.json:GolemMixin from mod cobble -> net.minecraft.Golem: @Inject annotation on tick could not find any targets (0/1) succeeded.",
            "mod entry: cobble 1.0 (Cobble)",
            "environment: unknown loader",
        ]
    );
    assert_eq!(d.fix[2], "minimal test: unknown loader + cobble alone, to confirm the crash is theirs");
    assert_eq!(d.dev_tip.len(), 2);
    assert_eq!(d.confidence, Confidence::High);
}

#[test]
fn mixin_with_little_to_go_by() {
    let mut r = bare();
    r.exceptions.push(exc("a.InjectionError", Some("boom")));
    let signs = MixinSigns { apply: None, config: None, arrow: None, hook: None, check: None };
    let d = diagnose_mixin(&r, &signs);
    assert_eq!(d.culprit.as_deref(), Some("an unknown mod"));
    assert_eq!(d.confidence, Confidence::Medium);
    assert_eq!(d.evidence[0], "error: a.InjectionError: boom");
    assert!(d.cause.contains("that mod's mixin could not be applied to a game class"));
    let signs = MixinSigns {
        apply: None,
        config: groups(&[Some("w"), Some("cobble-common.mixins.json")]),
        arrow: groups(&[Some("w"), Some("a.M"), Some("b.T")]),
        hook: groups(&[Some("w"), Some("Redirect"), Some("go")]),
        check: None,
    };
    let d = diagnose_mixin(&r, &signs);
    assert_eq!(d.culprit.as_deref(), Some("cobble 1.2.3"));
    assert_eq!(d.evidence[2], "injection: @Redirect on go()");
    assert_eq!(
        d.dev_tip[2],
        "the target b.T is not vanilla, so another mod moved that method: pin the version of that mod, and tell its author if the API changed"
    );
    assert!(run("mixin apply failure", &r).is_some());
    assert!(run("mixin apply failure", &bare()).is_none());
}

#[test]
fn mods_of_mixin_configurations() {
    assert_eq!(mod_id_from_config("cobble.mixins.json"), "cobble");
    assert_eq!(mod_id_from_config("cobble.mixin.json"), "cobble");
    assert_eq!(mod_id_from_config("cobble-client.json"), "cobble");
    assert_eq!(mod_id_from_config("cobble-common-main.mixins"), "cobble-common");
    assert_eq!(mod_id_from_config("cobble-server.mixin"), "cobble");
    assert_eq!(mod_id_from_config("cobble"), "cobble");
}

#[test]
fn mod_that_did_not_load() {
    let text = "-- MOD cobble --\nDetails:\n\tMod File: /mods/cobble-1.2.3.jar\n\tFailure message: Cobble Golems (cobble) has failed to load correctly\n\t\tjava.lang.ExceptionInInitializerError: null\n\tMod Issue URL: https://example.com/issues\n\tException message: Mod ID: 'jei', Requested by: 'cobble', Expected range: '[15,)'\nMod List:\n\tCobble | cobble | 1.0\n";
    let r = read(text);
    let d = run("mod loading failure", &r).unwrap();
    assert_eq!(d.culprit.as_deref(), Some("cobble 1.0"));
    assert_eq!(
        d.cause,
        "Mod loading failed: cobble 1.0 needs jei (version [15) and it is not there"
    );
    assert_eq!(
        d.evidence,
        vec![
            "mod file: cobble-1.2.3.jar",
            "Forge says: Cobble Golems (cobble) has failed to load correctly",
            "error: Mod ID: 'jei', Requested by: 'cobble', Expected range: '[15,)'",
            "mod issue URL: https://example.com/issues",
            "mod entry: cobble 1.0 (Cobble)",
            "environment: unknown loader",
        ]
    );
    assert_eq!(d.fix[0], "install jei [15 on the client and on the server");
    assert_eq!(d.confidence, Confidence::High);
}

#[test]
fn mod_that_did_not_load_by_its_jar() {
    let r = read("Mod loading error has occurred\n\tMod File: cobble-1.2.3.jar\n\tMod Issue URL: Not Provided\nMod List:\n\tCobble | cobble | 1.0\n");
    let d = run("mod loading failure", &r).unwrap();
    assert_eq!(d.culprit.as_deref(), Some("cobble 1.0"));
    assert_eq!(
        d.cause,
        "Mod loading failed: cobble 1.0 blew up before the game got to the menu. no error text"
    );
    assert_eq!(d.evidence[1], "error: no error text");
    assert_eq!(d.evidence.len(), 4);
}

#[test]
fn kinds_of_failures() {
    let wrong = classify_failure("Method has event class a.b.Event is not a subtype of the base type interface net.x.IModBusEvent");
    match wrong {
        ModFailure::WrongBus { event, iface } => {
            assert_eq!(event, "a.b.Event");
            assert_eq!(iface, "net.x.IModBusEvent");
        }
        _ => panic!("wrong bus"),
    }
    assert!(matches!(classify_failure("Found DUPLICATE MOD x"), ModFailure::Duplicate));
    match classify_failure("Mod cobble requires jei [15.2,16)") {
        ModFailure::MissingDependency { dep, range } => {
            assert_eq!(dep, "jei");
            assert_eq!(range.as_deref(), Some("[15.2,16)"));
        }
        _ => panic!("dependency"),
    }
    match classify_failure("java.lang.NoClassDefFoundError: a.b.C") {
        ModFailure::MissingClass(c) => assert_eq!(c, "a.b.C"),
        _ => panic!("class"),
    }
    match classify_failure("it broke") {
        ModFailure::Other(t) => assert_eq!(t, "it broke"),
        _ => panic!("other"),
    }
    let long = "x".repeat(201);
    match classify_failure(&long) {
        ModFailure::Other(t) => assert_eq!(t, "x".repeat(200) + "..."),
        _ => panic!("other"),
    }
}

#[test]
fn failures_out_of_signs() {
    let none = FailureSigns {
        lower: "imodbus".to_string(),
        event: None,
        iface: None,
        duplicate: false,
        dependency: None,
        required: None,
        class: None,
    };
    assert!(matches!(failure_from("imodbus", &none), ModFailure::Other(_)));
    let bus = FailureSigns { event: groups(&[Some("w"), Some("E")]), ..none };
    match failure_from("IModBus", &bus) {
        ModFailure::WrongBus { event, iface } => {
            assert_eq!((event.as_str(), iface.as_str()), ("E", "IModBusEvent"));
        }
        _ => panic!("wrong bus"),
    }
    let quiet = FailureSigns {
        lower: "other".to_string(),
        event: groups(&[Some("w"), Some("E")]),
        iface: None,
        duplicate: false,
        dependency: None,
        required: None,
        class: None,
    };
    assert!(matches!(failure_from("IModBus", &quiet), ModFailure::Other(_)));
    let double = FailureSigns { duplicate: true, lower: "text".to_string(), ..bus };
    assert!(matches!(failure_from("text", &double), ModFailure::Duplicate));
}

#[test]
fn diagnoses_of_failures() {
    let mut r = bare();
    r.frames.push(frame(1, "com.cobble.Main", Some("cobble-1.2.3.jar")));
    let signs = LoadSigns {
        failure: Some("x (cobble)".to_string()),
        named: Some("cobble".to_string()),
        mod_file: None,
        exception: None,
        detail: Some("d".to_string()),
        url: None,
    };
    let bus = ModFailure::WrongBus { event: "E".to_string(), iface: "I".to_string() };
    let d = diagnose_mod_load(&r, &signs, &bus);
    assert_eq!(d.evidence[1], "error: d");
    assert_eq!(
        d.fix[1],
        "in game: this is a bug in cobble. Use another build and report it; there is nothing you can fix on your side"
    );
    assert_eq!(d.dev_tip[1], "com.cobble.Main.tick(F.java:1) is the line that registers the listener");
    assert_eq!(d.dev_tip[2], JAR_HINT);
    let d = diagnose_mod_load(&r, &signs, &ModFailure::Duplicate);
    assert_eq!(d.cause, "Mod loading failed: cobble 1.2.3 is installed twice");
    assert_eq!(d.fix[1], "keep only one build of cobble 1.2.3");
    let d = diagnose_mod_load(&r, &signs, &ModFailure::MissingClass("z.Y".to_string()));
    assert_eq!(
        d.fix[0],
        "install the mod or library that ships z.Y (it is likely another mod cobble 1.2.3 depends on)"
    );
    let d = diagnose_mod_load(&r, &signs, &ModFailure::MissingClass("z.cobble.Y".to_string()));
    assert_eq!(
        d.fix[0],
        "install cobble 1.2.3: cobble 1.2.3 needs z.cobble.Y and it is not loaded"
    );
    let d = diagnose_mod_load(
        &r,
        &signs,
        &ModFailure::MissingDependency { dep: "jei".to_string(), range: None },
    );
    assert_eq!(d.cause, "Mod loading failed: cobble 1.2.3 needs jei and it is not there");
    assert_eq!(d.fix[0], "install jei on the client and on the server");
}

#[test]
fn mods_of_jars() {
    let r = bare();
    assert_eq!(mod_id_from_jar("/mods/cobble-1.20.1-1.2.3.jar.jar", &r).as_deref(), Some("cobble"));
    assert_eq!(mod_id_from_jar("C:\\mods\\cobble.jar", &r).as_deref(), Some("cobble"));
    assert_eq!(mod_id_from_jar("other-1.0.jar", &r), None);
    assert_eq!(file_name("a/b\\c.jar"), "c.jar");
    assert_eq!(file_name("c.jar"), "c.jar");
}

#[test]
fn missing_registry_entries() {
    let text = "Missing registry entries from server: minecraft:x -> cobble:golem (mod: cobble)\ncobble:golem\n  other:thing from mod jei \n\nlater:entry\nMod List:\n\tCobble | cobble | 1.0\n";
    let m = missing_registry_ids(text, "Missing registry entries");
    assert_eq!(m.ids, vec!["cobble:golem", "other:thing"]);
    assert_eq!(m.mods, vec!["cobble", "jei"]);
    let r = read(text);
    let d = run("registry mismatch", &r).unwrap();
    assert_eq!(
        d.culprit.as_deref(),
        Some("cobble 1.0, other (not in this report's mod list), jei (not in this report's mod list)")
    );
    assert_eq!(
        d.cause,
        "Missing registry entries: the client and the server are not running the same mods, and the client is missing cobble:golem, other:thing"
    );
    assert_eq!(
        d.evidence,
        vec![
            "report line: Missing registry entries from server: minecraft:x -> cobble:golem (mod: cobble)",
            "missing IDs (2): cobble:golem, other:thing",
            "mods that register them: cobble, jei",
            "environment: unknown loader",
        ]
    );
    assert_eq!(d.fix[0], "install cobble, jei on the client");
    assert_eq!(d.fix.len(), 3);
    assert_eq!(d.confidence, Confidence::High);
}

#[test]
fn registry_entries_of_the_game() {
    let r = read("-- Head --\nMissing registry entries: minecraft:stone\n");
    let d = evaluate(&r).diagnosis;
    assert_eq!(d.confidence, Confidence::High);
    assert_eq!(d.culprit, None);
    assert_eq!(d.fix[0], "install on one of the two sides (client or server) the mod that registers those IDs");
}

#[test]
fn registry_entries_unread() {
    let mut r = bare();
    r.raw = "Failed to synchronize registry data from client\n".to_string();
    let d = run("registry mismatch", &r).unwrap();
    assert_eq!(d.confidence, Confidence::Medium);
    assert_eq!(d.culprit, None);
    assert!(d.cause.ends_with("the server is missing the registry entries the other side never registered"));
    assert_eq!(d.fix.len(), 2);
    let mut m = MissingIds::new();
    m.ids = (0..9).map(|i| format!("a:b{i}")).collect();
    let d = diagnose_registry(&r, "Failed to synchronize registry data", &m);
    assert_eq!(
        d.evidence[1],
        "missing IDs (9): a:b0, a:b1, a:b2, a:b3, a:b4, a:b5, a:b6, a:b7 and 1 more"
    );
}

#[test]
fn lines_below_the_marker() {
    assert_eq!(line_role("at x", false), LineRole::Stop);
    assert_eq!(line_role("-- A --", false), LineRole::Stop);
    assert_eq!(line_role("... 3 more", false), LineRole::Stop);
    assert_eq!(line_role("", false), LineRole::Skip);
    assert_eq!(line_role("", true), LineRole::Stop);
    assert_eq!(line_role("x:y", true), LineRole::Read);
    let mut m = MissingIds::new();
    let ids = vec![groups(&[Some("w"), Some("a"), Some("b")]).unwrap(), groups(&[Some("w"), Some("a"), Some("b")]).unwrap()];
    let mods = vec![groups(&[Some("w"), Some("q")]).unwrap()];
    m.add(&ids, &mods);
    m.add(&ids, &mods);
    assert_eq!(m.ids, vec!["a:b"]);
    assert_eq!(m.mods, vec!["q"]);
    let far = format!("MARK\n{}aa:bb\n", "\n".repeat(39));
    assert_eq!(missing_registry_ids(&far, "MARK").ids, vec!["aa:bb"]);
    let too_far = format!("MARK\n{}aa:bb\n", "\n".repeat(40));
    assert!(missing_registry_ids(&too_far, "MARK").ids.is_empty());
    assert!(missing_registry_ids("aa:bb", "MARK").ids.is_empty());
}

#[test]
fn ticking_entity() {
    let text = "Description: Ticking entity\njava.lang.NullPointerException: x\n\tat com.cobble.Golem.tick(Golem.java:42) ~[cobble-1.2.3.jar%23123!/:1.2.3]\n-- Entity being ticked --\n\tEntity Type: cobble:golem (com.cobble.Golem)\n\tEntity's Exact location: 12.50, 64.00, -3.25\n\tEntity's Block location: World: (12,64,-4), Section: x\nMod List:\n\tCobble | cobble | 1.0\n";
    let r = read(text);
    let d = evaluate(&r).diagnosis;
    assert_eq!(d.culprit.as_deref(), Some("cobble 1.0"));
    assert_eq!(d.cause, "Exception ticking entity: cobble:golem blows up in its tick");
    assert_eq!(
        d.evidence,
        vec![
            "entity: cobble:golem (com.cobble.Golem)",
            "position: 12.50, 64.00, -3.25 (block: 12,64,-4)",
            "exception: java.lang.NullPointerException: x",
            "mod frame: com.cobble.Golem.tick(Golem.java:42) (stacktrace line 1)",
            "mod entry: cobble 1.0 (Cobble)",
            "environment: unknown loader",
        ]
    );
    assert_eq!(
        d.fix,
        vec![
            "this is cobble's bug: report it with this crash report attached",
            "to get back in: kill the entity near that spot with /kill @e[type=cobble:golem,distance=64] (it was at 12.50, 64.00, -3.25)",
            "try another build of cobble (the previous one usually works)",
        ]
    );
    assert_eq!(d.dev_tip.len(), 3);
    assert_eq!(d.dev_tip[2], JAR_HINT);
    assert_eq!(d.confidence, Confidence::High);
}

#[test]
fn ticking_block() {
    let text = "Description: Exception\n-- Block entity being ticked --\n\tName: cobble:kiln // com.cobble.Kiln\n\tBlock type: Block{x} (com.other.K)\n\tBlock location: World: (1, 2, -3)\n";
    let r = read(text);
    let d = run("entity/block entity tick", &r).unwrap();
    assert_eq!(d.culprit.as_deref(), Some("cobble:kiln (mod not identified)"));
    assert_eq!(d.cause, "Exception ticking block entity: cobble:kiln blows up in its tick");
    assert_eq!(d.evidence[0], "block entity: cobble:kiln (com.cobble.Kiln)");
    assert_eq!(d.evidence[1], "position (block): 1,2,-3");
    assert_eq!(
        d.fix[1],
        "to get back in: break that block with /setblock 1,2,-3 air (or mine it in creative)"
    );
    assert_eq!(d.confidence, Confidence::Medium);
}

#[test]
fn ticking_unread() {
    let mut r = bare();
    r.description = Some("TICKING player".to_string());
    let signs = TickSigns { entity: None, block_type: None, block_name: None, exact: None, block: None };
    let d = diagnose_tick(&r, &signs);
    assert_eq!(d.culprit, None);
    assert_eq!(d.cause, "Exception ticking entity: entity blows up in its tick");
    assert_eq!(
        d.evidence[0],
        "the report talks about a entity but I could not read its type"
    );
    assert_eq!(d.fix[1], "to get back in: kill it with /kill @e[type=<the id above>]");
    assert_eq!(
        d.dev_tip[0],
        "if you are a dev, read the tick method of the class in the frames above"
    );
    assert!(run("entity/block entity tick", &r).is_some());
    assert!(run("entity/block entity tick", &bare()).is_none());
    let mut r = bare();
    r.raw = "Exception ticking block entity".to_string();
    assert!(run("entity/block entity tick", &r).is_some());
    let block = TickSigns {
        entity: None,
        block_type: groups(&[Some("w"), Some("b"), Some("x.Y")]),
        block_name: None,
        exact: groups(&[Some("w"), Some("1, 2, 3")]),
        block: None,
    };
    let d = diagnose_tick(&r, &block);
    assert_eq!(d.evidence[1], "position: 1, 2, 3");
    assert_eq!(
        d.fix[1],
        "to get back in: find that mod's block and remove it from the world"
    );
}

#[test]
fn guess_with_an_owner() {
    let mut r = bare();
    r.exceptions.push(exc("a.Odd", None));
    r.frames = vec![
        frame(1, "java.lang.Thread", None),
        frame(2, "com.cobble.A", Some("cobble-1.2.3.jar")),
        frame(3, "com.x.B", None),
    ];
    let d = evaluate(&r).diagnosis;
    assert_eq!(d.culprit.as_deref(), Some("cobble 1.2.3 (unconfirmed)"));
    assert_eq!(
        d.cause,
        "crashdoctor doesn't know (っ◞‸◟ c): no rule matched this crash, so the verdict comes from the package names in the stacktrace. com.cobble.A belongs to cobble"
    );
    assert_eq!(
        d.evidence,
        vec![
            "mod entry: cobble 1.2.3 (Cobble Golems)",
            "first frames that are not Minecraft/Forge (the mod is usually there):",
            "  com.cobble.A.tick(F.java:2) (stacktrace line 2)",
            "  com.x.B.tick(F.java:3) (stacktrace line 3)",
            "exception: a.Odd",
            "environment: Forge 47.2.0 · Minecraft 1.20.1",
        ]
    );
    assert_eq!(
        d.fix[0],
        "run Forge plus that one mod alone to confirm it is the one crashing"
    );
    assert_eq!(d.dev_tip[2], JAR_HINT);
    assert_eq!(d.confidence, Confidence::Low);
}

#[test]
fn guess_without_an_owner() {
    let r = bare();
    let d = guess_from_frames(&r);
    assert_eq!(d.culprit, None);
    assert!(d.cause.ends_with("no mod package shows up in the stacktrace. The exception is no readable exception"));
    assert_eq!(
        d.evidence,
        vec![
            "first frames of the stacktrace:",
            "this report has no readable stacktrace (truncated?)",
            "environment: Forge 47.2.0 · Minecraft 1.20.1",
        ]
    );
    assert_eq!(d.fix.len(), 2);
    assert!(d.dev_tip.is_empty());
    let mut r = bare();
    r.frames = (1..8).map(|i| frame(i, "net.minecraft.X", None)).collect();
    let d = guess_from_frames(&r);
    assert_eq!(d.evidence.len(), 7);
    assert_eq!(d.evidence[5], "  net.minecraft.X.tick(F.java:5)");
    assert_eq!(d.dev_tip.len(), 1);
}

#[test]
fn guess_shows_each_site_once() {
    let mut r = bare();
    for i in [1usize, 1, 2, 3, 2, 4, 5, 6] {
        r.frames.push(frame(i, "q.X", None));
    }
    let d = guess_from_frames(&r);
    let lines: Vec<&String> = d.evidence.iter().filter(|l| l.starts_with("  ")).collect();
    assert_eq!(lines.len(), 5);
    assert_eq!(lines[4], "  q.X.tick(F.java:5) (stacktrace line 5)");
}

#[test]
fn jars_of_the_platform() {
    for name in [
        "client-1.20.1-srg.jar",
        "SERVER-1.jar",
        "x-forge-47.jar",
        "a-srg.jar",
        "authlib-4.jar",
        "eventbus-6.jar",
        "modlauncher-10.jar",
        "javafmllanguage.jar",
        "bootstraplauncher.jar",
        "mixin-0.8.jar",
        "asm-9.jar",
        "lwjgl.jar",
    ] {
        assert!(is_platform_jar(name), "{name}");
    }
    assert!(!is_platform_jar("cobble.jar"));
    assert!(!is_platform_jar(""));
    assert_eq!(jar_hint(None), None);
    assert_eq!(jar_hint(Some(&frame(1, "a.B", None))), None);
    assert_eq!(jar_hint(Some(&frame(1, "a.B", Some("asm-9.jar")))), None);
    assert_eq!(jar_hint(Some(&frame(1, "a.B", Some("cobble-1.2.3.jar")))).as_deref(), Some(JAR_HINT));
}

#[test]
fn texts_in_lower_case() {
    assert!(is_platform_jar_lowered("x-srg.jar"));
    assert!(!is_platform_jar_lowered("X-SRG.jar"));
    assert!(speaks_of_tick("ticking player", false, false, ""));
    assert!(!speaks_of_tick("TICKING player", false, false, ""));
    assert!(speaks_of_tick("", true, false, ""));
    assert!(speaks_of_tick("", false, true, ""));
    assert!(speaks_of_tick("", false, false, "Exception ticking entity"));
    let mut signs = LoadSigns {
        failure: None,
        named: None,
        mod_file: None,
        exception: None,
        detail: None,
        url: None,
    };
    assert!(says_loading_failed(&signs, "x mod loading has failed"));
    assert!(says_loading_failed(&signs, "mod loading error"));
    assert!(!says_loading_failed(&signs, "Mod Loading Error"));
    signs.failure = Some("f".to_string());
    assert!(says_loading_failed(&signs, ""));
    let e = exc("java.lang.OutOfMemoryError", Some("detail"));
    let heap = diagnose_oom(&bare(), &e, "java heap space");
    assert!(heap.cause.ends_with("so the game ran out of RAM"));
    let space = diagnose_oom(&bare(), &e, "compressed class space");
    assert_eq!(
        space.cause,
        "OutOfMemoryError (detail). The JVM ran out of Metaspace, the space that holds class metadata"
    );
}

#[test]
fn long_names_of_jars() {
    let r = bare();
    let name = format!("cobble{}{}", "-x".repeat(20000), ".jar".repeat(2000));
    assert_eq!(mod_id_from_jar(&name, &r).as_deref(), Some("cobble"));
}

#[test]
fn previews() {
    let v: Vec<String> = ["a", "b", "c"].iter().map(|s| s.to_string()).collect();
    assert_eq!(preview(&v, 3), "a, b, c");
    assert_eq!(preview(&v, 2), "a, b and 1 more");
    assert_eq!(preview(&v, 0), " and 3 more");
    assert_eq!(preview(&Vec::new(), 2), "");
}

#[test]
fn every_diagnosis_has_evidence_and_a_fix() {
    let texts = [
        "Description: x\n",
        "java.lang.OutOfMemoryError\n",
        "java.lang.NoSuchMethodError\n",
        "a.MixinException\n",
        "-- A --\nMod loading has failed\n",
        "-- A --\nMissing registry entries\n",
        "Description: ticking\n",
    ];
    for t in texts {
        let e = evaluate(&read(t));
        assert!(!e.diagnosis.evidence.is_empty(), "{t}");
        assert!(!e.diagnosis.cause.is_empty(), "{t}");
        assert!(e.diagnosis.fix.len() >= 2, "{t}");
        assert_eq!(e.checks.len(), 7);
        assert!(e.checks[6].1);
    }
}

use theboys_launcher::instances::{
    create_multimc_components, decimal_text, format_instance_cfg, parse_instance_cfg, parse_number,
};
use theboys_launcher::models::{Instance, InstanceStatus, MultiMCInstanceConfig};

fn instance(loader: &str) -> Instance {
    Instance {
        id: "i1".to_string(),
        name: "Pack".to_string(),
        modpack_id: "p".to_string(),
        minecraft_version: "1.20.1".to_string(),
        loader_type: loader.to_string(),
        loader_version: "47.2.0".to_string(),
        memory_mb: 4096,
        java_path: "/usr/bin/java".to_string(),
        game_dir: "/games/pack".to_string(),
        last_played: None,
        total_playtime: 0,
        icon_path: None,
        status: InstanceStatus::Ready,
        created_at: "2024-01-01".to_string(),
        updated_at: "2024-01-01".to_string(),
        jvm_args: None,
        env_vars: None,
    }
}

#[test]
fn vanilla_has_only_the_game() {
    let c = create_multimc_components(&instance("vanilla"));
    assert_eq!(c.len(), 1);
    assert_eq!(c[0].uid, "net.minecraft");
    assert_eq!(c[0].version, "1.20.1");
    assert_eq!(c[0].cached_name.as_deref(), Some("Minecraft"));
    assert!(c[0].cached_requires.is_none());
}

#[test]
fn loaders_add_their_component() {
    for (loader, uid, name) in [
        ("forge", "net.minecraftforge", "Minecraft Forge"),
        ("fabric", "net.fabricmc.fabric-loader", "Fabric Loader"),
        ("quilt", "org.quiltmc.quilt-loader", "Quilt Loader"),
        ("neoforge", "net.neoforged.neoforge", "NeoForge"),
    ] {
        let c = create_multimc_components(&instance(loader));
        assert_eq!(c.len(), 2);
        assert_eq!(c[1].uid, uid);
        assert_eq!(c[1].cached_name.as_deref(), Some(name));
        assert_eq!(c[1].version, "47.2.0");
        let req = c[1].cached_requires.as_ref().unwrap();
        assert_eq!(req.len(), 1);
        assert_eq!(req[0].uid, "net.minecraft");
        assert_eq!(req[0].equals.as_deref(), Some("1.20.1"));
    }
    assert_eq!(create_multimc_components(&instance("Forge")).len(), 1);
}

#[test]
fn decimal_numbers() {
    assert_eq!(decimal_text(0), "0");
    assert_eq!(decimal_text(7), "7");
    assert_eq!(decimal_text(10), "10");
    assert_eq!(decimal_text(4096), "4096");
    assert_eq!(decimal_text(u32::MAX), "4294967295");
}

#[test]
fn instance_cfg_lines() {
    let mut cfg = MultiMCInstanceConfig {
        instance_type: "OneSix".to_string(),
        name: "Pack".to_string(),
        icon_key: "default".to_string(),
        override_memory: true,
        min_mem_alloc: 512,
        max_mem_alloc: 4096,
        override_java: false,
        java_path: "/usr/bin/java".to_string(),
        notes: "".to_string(),
        jvm_args: None,
    };
    assert_eq!(
        format_instance_cfg(&cfg),
        "InstanceType=OneSix\nname=Pack\niconKey=default\nOverrideMemory=true\nMinMemAlloc=512\nMaxMemAlloc=4096\nOverrideJava=false\nJavaPath=/usr/bin/java\nNotes="
    );
    cfg.jvm_args = Some("-XX:+UseG1GC".to_string());
    assert!(format_instance_cfg(&cfg).ends_with("\nNotes=\nJvmArgs=-XX:+UseG1GC"));
}

#[test]
fn numbers_as_parse_reads_them() {
    assert_eq!(parse_number("4096"), Some(4096));
    assert_eq!(parse_number("+12"), Some(12));
    assert_eq!(parse_number("007"), Some(7));
    assert_eq!(parse_number("4294967295"), Some(u32::MAX));
    assert_eq!(parse_number("4294967296"), None);
    assert_eq!(parse_number("99999999999x"), None);
    assert_eq!(parse_number(""), None);
    assert_eq!(parse_number("+"), None);
    assert_eq!(parse_number("-1"), None);
    assert_eq!(parse_number("12a"), None);
    assert_eq!(parse_number(" 1"), None);
    for s in ["0", "1", "65535", "4294967295", "4294967296", "+5", "++5", "", "x"] {
        assert_eq!(parse_number(s), s.parse::<u32>().ok(), "{}", s);
    }
}

#[test]
fn instance_cfg_is_read_back() {
    let text = "InstanceType=OneSix\r\nname = My Pack \r\niconKey=default\nMaxMemAlloc=4096\nMinMemAlloc=oops\nJavaPath=\u{a0}/usr/bin/java\nnot a setting\nJvmArgs=-Xmx4G=big\nname=Second";
    let c = parse_instance_cfg(text);
    assert_eq!(c.name.as_deref(), Some("Second"));
    assert_eq!(c.java_path.as_deref(), Some("/usr/bin/java"));
    assert_eq!(c.max_mem_alloc, Some(4096));
    assert_eq!(c.min_mem_alloc, None);
    assert_eq!(c.jvm_args.as_deref(), Some("-Xmx4G=big"));
    let empty = parse_instance_cfg("");
    assert!(empty.name.is_none() && empty.max_mem_alloc.is_none() && empty.jvm_args.is_none());
}

#[test]
fn instance_cfg_round_trip() {
    let cfg = MultiMCInstanceConfig {
        instance_type: "OneSix".to_string(),
        name: "Pack".to_string(),
        icon_key: "default".to_string(),
        override_memory: true,
        min_mem_alloc: 512,
        max_mem_alloc: 8192,
        override_java: true,
        java_path: "/opt/java/bin/java".to_string(),
        notes: "n".to_string(),
        jvm_args: Some("-XX:+UseG1GC".to_string()),
    };
    let back = parse_instance_cfg(&format_instance_cfg(&cfg));
    assert_eq!(back.name.as_deref(), Some("Pack"));
    assert_eq!(back.java_path.as_deref(), Some("/opt/java/bin/java"));
    assert_eq!(back.min_mem_alloc, Some(512));
    assert_eq!(back.max_mem_alloc, Some(8192));
    assert_eq!(back.jvm_args.as_deref(), Some("-XX:+UseG1GC"));
}

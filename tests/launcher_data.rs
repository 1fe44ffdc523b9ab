use theboys_launcher::api_response::ApiResponse;
use theboys_launcher::config::{
    create_system_aware_defaults, detect_default_java, recommended_memory_mb, sanitize_settings,
};
use theboys_launcher::files::{get_file_extension, is_valid_filename};
use theboys_launcher::models::{JavaVersion, LauncherError, LauncherSettings, Modloader, SystemInfo, UpdateOptions};
use theboys_launcher::performance::PerformanceTimer;
use theboys_launcher::update::{UpdateChannel, UpdateSettings};

fn java(path: &str, is_64bit: bool, major: u32) -> JavaVersion {
    JavaVersion { version: format!("{}", major), path: path.to_string(), is_64bit, major_version: major }
}

fn system(total_mb: u64, javas: Vec<JavaVersion>) -> SystemInfo {
    SystemInfo {
        os: "linux".to_string(),
        arch: "x86_64".to_string(),
        total_memory_mb: total_mb,
        available_memory_mb: total_mb / 2,
        cpu_cores: 4,
        java_installed: !javas.is_empty(),
        java_versions: javas,
    }
}

#[test]
fn modloader_names_round_trip() {
    for m in [Modloader::Vanilla, Modloader::Forge, Modloader::Fabric, Modloader::Quilt, Modloader::NeoForge] {
        assert_eq!(Modloader::from_str(m.as_str()), m);
    }
    assert_eq!(Modloader::Forge.as_str(), "forge");
    assert_eq!(Modloader::NeoForge.as_str(), "neoforge");
}

#[test]
fn modloader_from_str_ignores_case_and_falls_back() {
    assert_eq!(Modloader::from_str("FORGE"), Modloader::Forge);
    assert_eq!(Modloader::from_str("Fabric"), Modloader::Fabric);
    assert_eq!(Modloader::from_str("NeoForge"), Modloader::NeoForge);
    assert_eq!(Modloader::from_str("rift"), Modloader::Vanilla);
    assert_eq!(Modloader::from_str(""), Modloader::Vanilla);
}

#[test]
fn update_channel_names() {
    assert_eq!(UpdateChannel::Stable.as_str(), "stable");
    assert_eq!(UpdateChannel::Beta.as_str(), "beta");
    assert_eq!(UpdateChannel::Alpha.as_str(), "alpha");
    assert_eq!(UpdateChannel::default(), UpdateChannel::Stable);
    let s = UpdateSettings::default();
    assert!(s.auto_update_enabled && s.check_updates_on_startup && s.backup_before_update);
    assert!(!s.allow_prerelease);
}

#[test]
fn error_messages() {
    assert_eq!(LauncherError::Network("timeout".to_string()).message(), "Network error: timeout");
    assert_eq!(LauncherError::JavaNotFound.message(), "Java not found");
    assert_eq!(LauncherError::PrismNotFound.message(), "Prism Launcher not found");
    assert_eq!(LauncherError::InvalidConfig("x".to_string()).message(), "Invalid configuration: x");
    assert_eq!(LauncherError::DownloadFailed("HTTP 404".to_string()).message(), "Download failed: HTTP 404");
    assert_eq!(LauncherError::ProcessTermination("p".to_string()).message(), "Process termination failed: p");
    assert_eq!(LauncherError::NotFound("id".to_string()).message(), "Not found: id");
}

#[test]
fn api_responses() {
    let ok: ApiResponse<u32> = ApiResponse::success(7);
    assert!(ok.success);
    assert_eq!(ok.data, Some(7));
    assert_eq!(ok.error, None);
    let bad: ApiResponse<u32> = ApiResponse::error("nope".to_string());
    assert!(!bad.success);
    assert_eq!(bad.data, None);
    assert_eq!(bad.error, Some("nope".to_string()));
    let from_err: ApiResponse<u32> =
        ApiResponse::from_result(Err(LauncherError::FileSystem("disk".to_string())));
    assert!(!from_err.success);
    assert_eq!(from_err.error, Some("File system error: disk".to_string()));
    let from_ok: ApiResponse<u32> = ApiResponse::from_result(Ok(3));
    assert!(from_ok.success);
    assert_eq!(from_ok.data, Some(3));
}

#[test]
fn test_get_file_extension() {
    let test_cases = vec![
        ("file.txt", Some("txt")),
        ("document.pdf", Some("pdf")),
        ("archive.tar.gz", Some("gz")),
        ("no_extension", None),
        (".hidden", None),
        ("multiple.dots.tar.gz", Some("gz")),
        ("UPPERCASE.TXT", Some("txt")),
        ("", None),
    ];
    for (filename, expected) in test_cases {
        let result = get_file_extension(filename);
        assert_eq!(result, expected.map(|s| s.to_string()), "Failed for filename: {}", filename);
    }
}

#[test]
fn valid_and_invalid_filenames() {
    for name in ["normal_file.txt", "file-with-dashes", "File With Spaces.txt", "a", "UPPERCASE.TXT", "a.b.c"] {
        assert!(is_valid_filename(name), "should be valid: {}", name);
    }
    for name in ["", "..", "a..b", "file/with/slashes", "file\\x", "c:x", "a*b", "a?b", "a\"b", "a<b", "a>b", "a|b"] {
        assert!(!is_valid_filename(name), "should be invalid: {}", name);
    }
}

#[test]
fn sanitize_clamps_memory_and_theme() {
    let mut s = LauncherSettings { memory_mb: 1023, theme: "DARK".to_string(), ..LauncherSettings::default() };
    sanitize_settings(&mut s);
    assert_eq!(s.memory_mb, 2048);
    assert_eq!(s.theme, "system");
    let mut s = LauncherSettings { memory_mb: 100000, theme: "light".to_string(), ..LauncherSettings::default() };
    sanitize_settings(&mut s);
    assert_eq!(s.memory_mb, 32768);
    assert_eq!(s.theme, "light");
    let mut s = LauncherSettings { memory_mb: 8192, theme: "dark".to_string(), java_path: Some("/j".to_string()), ..LauncherSettings::default() };
    sanitize_settings(&mut s);
    assert_eq!(s.memory_mb, 8192);
    assert_eq!(s.theme, "dark");
    assert_eq!(s.java_path, Some("/j".to_string()));
}

#[test]
fn default_settings() {
    let s = LauncherSettings::default();
    assert_eq!(s.memory_mb, 4096);
    assert_eq!(s.theme, "system");
    assert!(s.auto_update && s.update_notifications);
    let o = UpdateOptions::default();
    assert!(o.create_backup && !o.force_update && !o.allow_downgrade);
}

#[test]
fn default_java_choice() {
    let none = system(8192, vec![java("/j8-32", false, 8)]);
    assert_eq!(detect_default_java(&none), None);
    let fallback = system(8192, vec![java("/j8-32", false, 21), java("/j8", true, 8), java("/j11", true, 11)]);
    assert_eq!(detect_default_java(&fallback), Some("/j8".to_string()));
    let modern = system(8192, vec![java("/j8", true, 8), java("/j17", true, 17), java("/j21", true, 21)]);
    assert_eq!(detect_default_java(&modern), Some("/j17".to_string()));
}

#[test]
fn memory_recommendation() {
    assert_eq!(recommended_memory_mb(0), 2048);
    assert_eq!(recommended_memory_mb(4096), 2048);
    assert_eq!(recommended_memory_mb(8192), 4096);
    assert_eq!(recommended_memory_mb(16384), 8192);
    assert_eq!(recommended_memory_mb(65536), 16384);
    assert_eq!(recommended_memory_mb(u64::MAX), 16384);
}

#[test]
fn system_aware_defaults() {
    let sys = system(16384, vec![java("/j17", true, 17)]);
    let s = create_system_aware_defaults(&sys, Some("/usr/bin/prismlauncher".to_string()));
    assert_eq!(s.memory_mb, 8192);
    assert_eq!(s.java_path, Some("/j17".to_string()));
    assert_eq!(s.prism_path, Some("/usr/bin/prismlauncher".to_string()));
    assert_eq!(s.theme, "system");
    assert_eq!(s.instances_dir, None);
}

#[test]
fn timer_records_start() {
    let t = PerformanceTimer::new("load".to_string(), 1234);
    assert_eq!(t.operation, "load");
    assert_eq!(t.start_ms, 1234);
}

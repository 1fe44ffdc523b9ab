use vstd::prelude::*;
use vstd::string::StringExecFns;

use crate::text::{lower_of, lowercase};

verus! {

/// A modpack offered by the launcher.
#[derive(Clone, Debug)]
pub struct Modpack {
    pub id: String,
    pub display_name: String,
    pub pack_url: String,
    pub instance_name: String,
    pub description: String,
    pub default: bool,
    pub version: String,
    pub minecraft_version: String,
    pub modloader: Modloader,
    pub loader_version: String,
}

/// The mod loaders a modpack can run on.
#[derive(Clone, Copy, Debug, PartialEq, Eq, Structural)]
pub enum Modloader {
    Vanilla,
    Forge,
    Fabric,
    Quilt,
    NeoForge,
}

/// Lower-case name of a mod loader.
pub open spec fn modloader_name(m: Modloader) -> Seq<char> {
    match m {
        Modloader::Vanilla => "vanilla"@,
        Modloader::Forge => "forge"@,
        Modloader::Fabric => "fabric"@,
        Modloader::Quilt => "quilt"@,
        Modloader::NeoForge => "neoforge"@,
    }
}

/// The mod loader named by an already lower-cased name; unknown names mean vanilla.
pub open spec fn modloader_named(s: Seq<char>) -> Modloader {
    if s == "forge"@ {
        Modloader::Forge
    } else if s == "fabric"@ {
        Modloader::Fabric
    } else if s == "quilt"@ {
        Modloader::Quilt
    } else if s == "neoforge"@ {
        Modloader::NeoForge
    } else {
        Modloader::Vanilla
    }
}

impl Modloader {
    pub fn as_str(&self) -> (r: &'static str)
        ensures
            r@ == modloader_name(*self),
    {
        match self {
            Modloader::Vanilla => "vanilla",
            Modloader::Forge => "forge",
            Modloader::Fabric => "fabric",
            Modloader::Quilt => "quilt",
            Modloader::NeoForge => "neoforge",
        }
    }

    /// The mod loader named by `s`, whatever its case; vanilla for unknown names.
    pub fn from_str(s: &str) -> (r: Modloader)
        ensures
            r == modloader_named(lower_of(s@)),
    {
        let lower = lowercase(s);
        Modloader::from_lowercase(&lower)
    }

    /// The mod loader named by `s`, which is already lower case.
    pub fn from_lowercase(s: &String) -> (r: Modloader)
        ensures
            r == modloader_named(s@),
    {
        if *s == String::from_str("forge") {
            Modloader::Forge
        } else if *s == String::from_str("fabric") {
            Modloader::Fabric
        } else if *s == String::from_str("quilt") {
            Modloader::Quilt
        } else if *s == String::from_str("neoforge") {
            Modloader::NeoForge
        } else {
            Modloader::Vanilla
        }
    }
}

/// A modpack installed on this machine.
#[derive(Clone, Debug)]
pub struct InstalledModpack {
    pub modpack: Modpack,
    pub installed_version: String,
    pub install_path: String,
    pub install_date: String,
    pub last_played: Option<String>,
}

/// What is known of an update of a modpack.
#[derive(Clone, Debug)]
pub struct ModpackUpdate {
    pub modpack_id: String,
    pub current_version: String,
    pub latest_version: String,
    pub update_available: bool,
    pub changelog_url: Option<String>,
    pub download_url: String,
    pub size_bytes: u64,
}

/// Settings the user can change.
#[derive(Clone, Debug)]
pub struct LauncherSettings {
    pub memory_mb: u32,
    pub java_path: Option<String>,
    pub prism_path: Option<String>,
    pub instances_dir: Option<String>,
    pub auto_update: bool,
    /// "light", "dark" or "system".
    pub theme: String,
    pub default_modpack_id: Option<String>,
    pub update_notifications: bool,
}

impl Default for LauncherSettings {
    fn default() -> (r: LauncherSettings)
        ensures
            r.memory_mb == 4096,
            r.java_path is None,
            r.prism_path is None,
            r.instances_dir is None,
            r.auto_update,
            r.theme@ == "system"@,
            r.default_modpack_id is None,
            r.update_notifications,
    {
        LauncherSettings {
            memory_mb: 4096,
            java_path: None,
            prism_path: None,
            instances_dir: None,
            auto_update: true,
            theme: String::from_str("system"),
            default_modpack_id: None,
            update_notifications: true,
        }
    }
}

/// Facts about the machine the launcher runs on.
#[derive(Clone, Debug)]
pub struct SystemInfo {
    pub os: String,
    pub arch: String,
    pub total_memory_mb: u64,
    pub available_memory_mb: u64,
    pub cpu_cores: usize,
    pub java_installed: bool,
    pub java_versions: Vec<JavaVersion>,
}

/// One Java installation found on the machine.
#[derive(Clone, Debug)]
pub struct JavaVersion {
    pub version: String,
    pub path: String,
    pub is_64bit: bool,
    pub major_version: u32,
}

/// What is needed to create a game instance.
#[derive(Clone, Debug)]
pub struct InstanceConfig {
    pub name: String,
    pub modpack_id: String,
    pub minecraft_version: String,
    pub loader_type: Modloader,
    pub loader_version: String,
    pub memory_mb: u32,
    pub java_path: String,
    pub icon_path: Option<String>,
    pub jvm_args: Option<String>,
    pub env_vars: Option<std::collections::HashMap<String, String>>,
}

/// Where a game instance stands.
#[derive(Clone, Copy, Debug, PartialEq, Eq, Structural)]
pub enum InstanceStatus {
    Ready,
    NeedsUpdate,
    Broken,
    Installing,
    Running,
    Updating,
}

/// A game instance.
#[derive(Clone, Debug)]
pub struct Instance {
    pub id: String,
    pub name: String,
    pub modpack_id: String,
    pub minecraft_version: String,
    /// "vanilla", "forge", "fabric", ...
    pub loader_type: String,
    pub loader_version: String,
    pub memory_mb: u32,
    pub java_path: String,
    pub game_dir: String,
    pub last_played: Option<String>,
    /// In seconds.
    pub total_playtime: u64,
    pub icon_path: Option<String>,
    pub status: InstanceStatus,
    pub created_at: String,
    pub updated_at: String,
    pub jvm_args: Option<String>,
    pub env_vars: Option<std::collections::HashMap<String, String>>,
}

/// The settings file of a MultiMC-style instance.
#[derive(Clone, Debug)]
pub struct MultiMCInstanceConfig {
    pub instance_type: String,
    pub name: String,
    pub icon_key: String,
    pub override_memory: bool,
    pub min_mem_alloc: u32,
    pub max_mem_alloc: u32,
    pub override_java: bool,
    pub java_path: String,
    pub notes: String,
    pub jvm_args: Option<String>,
}

/// One component of a MultiMC-style pack description.
#[derive(Clone, Debug)]
pub struct MultiMCComponent {
    pub cached_name: Option<String>,
    pub cached_version: Option<String>,
    pub cached_requires: Option<Vec<ComponentRequirement>>,
    pub uid: String,
    pub version: String,
}

/// A component that another one needs.
#[derive(Clone, Debug)]
pub struct ComponentRequirement {
    pub equals: Option<String>,
    pub uid: String,
}

/// Outcome of checking an instance.
#[derive(Clone, Debug)]
pub struct InstanceValidation {
    pub instance_id: String,
    pub is_valid: bool,
    pub issues: Vec<String>,
    pub recommendations: Vec<String>,
}

/// Errors of the launcher.
#[derive(Clone, Debug)]
pub enum LauncherError {
    Network(String),
    FileSystem(String),
    JavaNotFound,
    PrismNotFound,
    InvalidConfig(String),
    DownloadFailed(String),
    Process(String),
    Serialization(String),
    PermissionDenied(String),
    ModpackNotFound(String),
    InstanceNotFound(String),
    LaunchFailed(String),
    ProcessNotFound(String),
    ProcessTermination(String),
    UpdateFailed(String),
    NotImplemented(String),
    NotFound(String),
}

/// The message of an error.
pub open spec fn error_text(e: LauncherError) -> Seq<char> {
    match e {
        LauncherError::Network(m) => "Network error: "@ + m@,
        LauncherError::FileSystem(m) => "File system error: "@ + m@,
        LauncherError::JavaNotFound => "Java not found"@,
        LauncherError::PrismNotFound => "Prism Launcher not found"@,
        LauncherError::InvalidConfig(m) => "Invalid configuration: "@ + m@,
        LauncherError::DownloadFailed(m) => "Download failed: "@ + m@,
        LauncherError::Process(m) => "Process error: "@ + m@,
        LauncherError::Serialization(m) => "Serialization error: "@ + m@,
        LauncherError::PermissionDenied(m) => "Permission denied: "@ + m@,
        LauncherError::ModpackNotFound(m) => "Modpack not found: "@ + m@,
        LauncherError::InstanceNotFound(m) => "Instance not found: "@ + m@,
        LauncherError::LaunchFailed(m) => "Launch failed: "@ + m@,
        LauncherError::ProcessNotFound(m) => "Process not found: "@ + m@,
        LauncherError::ProcessTermination(m) => "Process termination failed: "@ + m@,
        LauncherError::UpdateFailed(m) => "Update failed: "@ + m@,
        LauncherError::NotImplemented(m) => "Not implemented: "@ + m@,
        LauncherError::NotFound(m) => "Not found: "@ + m@,
    }
}

/// `p` followed by `m`.
fn prefixed(p: &str, m: &String) -> (r: String)
    ensures
        r@ == p@ + m@,
{
    let mut r = String::from_str(p);
    r.append(m.as_str());
    r
}

impl LauncherError {
    /// The message of this error, as its display shows it.
    pub fn message(&self) -> (r: String)
        ensures
            r@ == error_text(*self),
    {
        match self {
            LauncherError::Network(m) => prefixed("Network error: ", m),
            LauncherError::FileSystem(m) => prefixed("File system error: ", m),
            LauncherError::JavaNotFound => String::from_str("Java not found"),
            LauncherError::PrismNotFound => String::from_str("Prism Launcher not found"),
            LauncherError::InvalidConfig(m) => prefixed("Invalid configuration: ", m),
            LauncherError::DownloadFailed(m) => prefixed("Download failed: ", m),
            LauncherError::Process(m) => prefixed("Process error: ", m),
            LauncherError::Serialization(m) => prefixed("Serialization error: ", m),
            LauncherError::PermissionDenied(m) => prefixed("Permission denied: ", m),
            LauncherError::ModpackNotFound(m) => prefixed("Modpack not found: ", m),
            LauncherError::InstanceNotFound(m) => prefixed("Instance not found: ", m),
            LauncherError::LaunchFailed(m) => prefixed("Launch failed: ", m),
            LauncherError::ProcessNotFound(m) => prefixed("Process not found: ", m),
            LauncherError::ProcessTermination(m) => prefixed("Process termination failed: ", m),
            LauncherError::UpdateFailed(m) => prefixed("Update failed: ", m),
            LauncherError::NotImplemented(m) => prefixed("Not implemented: ", m),
            LauncherError::NotFound(m) => prefixed("Not found: ", m),
        }
    }
}

/// A backup of an instance.
#[derive(Clone, Debug)]
pub struct BackupInfo {
    pub id: String,
    pub instance_id: String,
    pub backup_date: String,
    pub version: String,
    pub size_bytes: u64,
    pub backup_path: String,
    pub description: Option<String>,
}

/// Steps of installing a pack.
#[derive(Clone, Copy, Debug, PartialEq, Eq, Structural)]
pub enum PackInstallStep {
    Downloading,
    Extracting,
    ParsingManifest,
    DownloadingDependencies,
    InstallingFiles,
    ConfiguringInstance,
    Completed,
}

/// Where the installation of a pack stands.
#[derive(Clone, Debug)]
pub enum PackInstallStatus {
    Running,
    Completed,
    Failed(String),
    Cancelled,
}

/// A file the user has to fetch by hand.
#[derive(Clone, Debug)]
pub struct ManualDownload {
    pub id: String,
    pub filename: String,
    pub url: String,
    pub checksum: Option<String>,
    pub size: u64,
    /// "direct", "adfoc.us", ...
    pub download_type: String,
    pub instructions: Option<String>,
}

/// How to carry out an update of an instance.
#[derive(Clone, Debug)]
pub struct UpdateOptions {
    pub create_backup: bool,
    pub backup_description: Option<String>,
    pub force_update: bool,
    pub allow_downgrade: bool,
}

impl Default for UpdateOptions {
    fn default() -> (r: UpdateOptions)
        ensures
            r.create_backup,
            r.backup_description is None,
            !r.force_update,
            !r.allow_downgrade,
    {
        UpdateOptions {
            create_backup: true,
            backup_description: None,
            force_update: false,
            allow_downgrade: false,
        }
    }
}

} // verus!

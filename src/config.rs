use vstd::prelude::*;
use vstd::string::StringExecFns;

use crate::models::{JavaVersion, LauncherSettings, SystemInfo};

verus! {

/// Least memory, in MB, that the game is given.
pub const MIN_MEMORY_MB: u32 = 2048;

/// Most memory, in MB, that the game is given.
pub const MAX_MEMORY_MB: u32 = 32768;

/// Whether `t` names a theme the launcher knows.
pub open spec fn is_known_theme(t: Seq<char>) -> bool {
    t == "light"@ || t == "dark"@ || t == "system"@
}

/// A memory setting brought into `[MIN_MEMORY_MB, MAX_MEMORY_MB]`.
pub open spec fn clamped_memory(m: u32) -> u32 {
    if m < MIN_MEMORY_MB {
        MIN_MEMORY_MB
    } else if m > MAX_MEMORY_MB {
        MAX_MEMORY_MB
    } else {
        m
    }
}

/// Brings the memory setting into range and replaces an unknown theme by
/// "system". The other settings are left as they are.
pub fn sanitize_settings(settings: &mut LauncherSettings)
    ensures
        final(settings).memory_mb == clamped_memory(old(settings).memory_mb),
        is_known_theme(old(settings).theme@) ==> final(settings).theme == old(settings).theme,
        !is_known_theme(old(settings).theme@) ==> final(settings).theme@ == "system"@,
        final(settings).java_path == old(settings).java_path,
        final(settings).prism_path == old(settings).prism_path,
        final(settings).instances_dir == old(settings).instances_dir,
        final(settings).auto_update == old(settings).auto_update,
        final(settings).default_modpack_id == old(settings).default_modpack_id,
        final(settings).update_notifications == old(settings).update_notifications,
{
    if settings.memory_mb < MIN_MEMORY_MB {
        settings.memory_mb = MIN_MEMORY_MB;
    } else if settings.memory_mb > MAX_MEMORY_MB {
        settings.memory_mb = MAX_MEMORY_MB;
    }
    let known = settings.theme == String::from_str("light") || settings.theme == String::from_str(
        "dark",
    ) || settings.theme == String::from_str("system");
    if !known {
        settings.theme = String::from_str("system");
    }
}

/// Whether a Java installation is 64-bit and at least of version `min_major`.
pub open spec fn suits(j: JavaVersion, min_major: u32) -> bool {
    j.is_64bit && j.major_version >= min_major
}

/// Whether `k` is the first position of `v` holding a suitable Java.
pub open spec fn is_first_suitable(v: Seq<JavaVersion>, min_major: u32, k: int) -> bool {
    &&& 0 <= k < v.len()
    &&& suits(v[k], min_major)
    &&& forall|j: int| 0 <= j < k ==> !suits(#[trigger] v[j], min_major)
}

/// Position of the first suitable Java of `v`.
fn first_suitable(v: &Vec<JavaVersion>, min_major: u32) -> (r: Option<usize>)
    ensures
        match r {
            Some(k) => is_first_suitable(v@, min_major, k as int),
            None => forall|j: int| 0 <= j < v@.len() ==> !suits(#[trigger] v@[j], min_major),
        },
{
    let mut i: usize = 0;
    while i < v.len()
        invariant
            i <= v@.len(),
            forall|j: int| 0 <= j < i ==> !suits(#[trigger] v@[j], min_major),
        decreases v@.len() - i,
    {
        if v[i].is_64bit && v[i].major_version >= min_major {
            return Some(i);
        }
        i = i + 1;
    }
    None
}

/// Major version of Java that the launcher prefers.
pub const PREFERRED_JAVA_MAJOR: u32 = 17;

/// Position of the default Java in `v`: the first 64-bit one of the
/// preferred version or later, else the first 64-bit one; -1 if none.
pub open spec fn default_java_index(v: Seq<JavaVersion>) -> int {
    if exists|k: int| is_first_suitable(v, PREFERRED_JAVA_MAJOR, k) {
        choose|k: int| is_first_suitable(v, PREFERRED_JAVA_MAJOR, k)
    } else if exists|k: int| is_first_suitable(v, 0, k) {
        choose|k: int| is_first_suitable(v, 0, k)
    } else {
        -1
    }
}

/// Whether `r` is the path of the default Java of `v`, or none when there is none.
pub open spec fn is_default_java(r: Option<String>, v: Seq<JavaVersion>) -> bool {
    match r {
        Some(p) => default_java_index(v) >= 0 && p@ == v[default_java_index(v)].path@,
        None => default_java_index(v) == -1,
    }
}

proof fn lemma_first_suitable_unique(v: Seq<JavaVersion>, m: u32, a: int, b: int)
    requires
        is_first_suitable(v, m, a),
        is_first_suitable(v, m, b),
    ensures
        a == b,
{
    if a < b {
        assert(!suits(v[a], m));
    } else if b < a {
        assert(!suits(v[b], m));
    }
}

/// The Java to use by default: the first 64-bit one of version 17 or later,
/// else the first 64-bit one, else none.
pub fn detect_default_java(sys_info: &SystemInfo) -> (r: Option<String>)
    ensures
        is_default_java(r, sys_info.java_versions@),
{
    let v = &sys_info.java_versions;
    match first_suitable(v, PREFERRED_JAVA_MAJOR) {
        Some(k) => {
            proof {
                let c = choose|c: int| is_first_suitable(v@, PREFERRED_JAVA_MAJOR, c);
                lemma_first_suitable_unique(v@, PREFERRED_JAVA_MAJOR, k as int, c);
            }
            Some(v[k].path.clone())
        },
        None => match first_suitable(v, 0) {
            Some(k) => {
                proof {
                    let c = choose|c: int| is_first_suitable(v@, 0, c);
                    lemma_first_suitable_unique(v@, 0, k as int, c);
                }
                Some(v[k].path.clone())
            },
            None => None,
        },
    }
}

/// Memory to give the game on a machine with `total_memory_mb` of RAM: half
/// of it in whole GB, between 2 and 16 GB.
pub open spec fn recommended_memory(total_memory_mb: u64) -> nat {
    let half_gb = total_memory_mb as nat / 1024 / 2;
    let gb: nat = if half_gb < 2 {
        2
    } else if half_gb > 16 {
        16
    } else {
        half_gb
    };
    gb * 1024
}

pub fn recommended_memory_mb(total_memory_mb: u64) -> (r: u32)
    ensures
        r as nat == recommended_memory(total_memory_mb),
{
    let half_gb = total_memory_mb / 1024 / 2;
    let gb: u64 = if half_gb < 2 {
        2
    } else if half_gb > 16 {
        16
    } else {
        half_gb
    };
    (gb * 1024) as u32
}

/// Default settings fitted to the machine: memory from its RAM, the default
/// Java among its installations, and the Prism Launcher found on it, if any.
pub fn create_system_aware_defaults(sys_info: &SystemInfo, prism_path: Option<String>) -> (r:
    LauncherSettings)
    ensures
        r.memory_mb as nat == recommended_memory(sys_info.total_memory_mb),
        is_default_java(r.java_path, sys_info.java_versions@),
        r.prism_path == prism_path,
        r.instances_dir is None,
        r.auto_update,
        r.theme@ == "system"@,
        r.default_modpack_id is None,
        r.update_notifications,
{
    LauncherSettings {
        memory_mb: recommended_memory_mb(sys_info.total_memory_mb),
        java_path: detect_default_java(sys_info),
        prism_path,
        instances_dir: None,
        auto_update: true,
        theme: String::from_str("system"),
        default_modpack_id: None,
        update_notifications: true,
    }
}

} // verus!

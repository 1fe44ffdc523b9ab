use vstd::prelude::*;

verus! {

/// Which releases of the launcher to follow.
#[derive(Clone, Copy, Debug, PartialEq, Eq, Structural)]
pub enum UpdateChannel {
    Stable,
    Beta,
    Alpha,
}

impl Default for UpdateChannel {
    fn default() -> (r: UpdateChannel)
        ensures
            r == UpdateChannel::Stable,
    {
        UpdateChannel::Stable
    }
}

/// Lower-case name of a channel.
pub open spec fn channel_name(c: UpdateChannel) -> Seq<char> {
    match c {
        UpdateChannel::Stable => "stable"@,
        UpdateChannel::Beta => "beta"@,
        UpdateChannel::Alpha => "alpha"@,
    }
}

impl UpdateChannel {
    pub fn as_str(&self) -> (r: &'static str)
        ensures
            r@ == channel_name(*self),
    {
        match self {
            UpdateChannel::Stable => "stable",
            UpdateChannel::Beta => "beta",
            UpdateChannel::Alpha => "alpha",
        }
    }
}

/// A release of the launcher that can be installed.
#[derive(Clone, Debug)]
pub struct UpdateInfo {
    pub version: String,
    pub tag_name: String,
    pub release_notes: String,
    pub published_at: String,
    pub download_url: String,
    pub file_size: u64,
    pub checksum: Option<String>,
    pub prerelease: bool,
    pub channel: UpdateChannel,
}

/// Where a self-update stands.
#[derive(Clone, Copy, Debug, PartialEq, Eq, Structural)]
pub enum UpdateStatus {
    Checking,
    Available,
    Downloading,
    Downloaded,
    Installing,
    Installed,
    Failed,
    RollingBack,
}

/// How the launcher updates itself.
#[derive(Clone, Debug)]
pub struct UpdateSettings {
    pub auto_update_enabled: bool,
    pub update_channel: UpdateChannel,
    pub check_updates_on_startup: bool,
    pub allow_prerelease: bool,
    pub backup_before_update: bool,
}

impl Default for UpdateSettings {
    fn default() -> (r: UpdateSettings)
        ensures
            r.auto_update_enabled,
            r.update_channel == UpdateChannel::Stable,
            r.check_updates_on_startup,
            !r.allow_prerelease,
            r.backup_before_update,
    {
        UpdateSettings {
            auto_update_enabled: true,
            update_channel: UpdateChannel::Stable,
            check_updates_on_startup: true,
            allow_prerelease: false,
            backup_before_update: true,
        }
    }
}

} // verus!

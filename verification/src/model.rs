//! The data the engine works over: runtime-probe results, installation
//! configuration, scan outcomes, saved installations and their UI-facing
//! summaries, and the plain snapshots of outside state (directory listings,
//! settings-file reads, lock probes) that the decision functions take.

use vstd::prelude::*;

verus! {

/// Result of probing the installed runtime's version.
pub struct JavaCheckResult {
    pub is_installed: bool,
    pub version: Option<String>,
    pub major_version: Option<u32>,
    pub is_compatible: bool,
    pub required_version: String,
}

/// The three configuration fields read from an installation's settings file.
pub struct GeneralSettings {
    pub motd: String,
    pub server_port: u16,
    pub max_players: u32,
}

/// An installation's configuration as reported to callers; `core_jar` is
/// empty until a specific archive has been selected.
pub struct ServerInfo {
    pub motd: String,
    pub server_port: u16,
    pub max_players: u32,
    pub core_jar: String,
}

/// The four-way classification of an installation directory.
pub enum ScanResult {
    Valid { config: ServerInfo, jars: Vec<String> },
    NoSettings,
    NoJars,
    NeedCoreSelection { jars: Vec<String>, config: ServerInfo },
}

/// A previously saved installation, owned by the caller's storage.
pub struct SavedServer {
    pub id: String,
    pub name: String,
    pub path: String,
    pub core_jar: String,
}

/// The settings block of a batch-probe summary.
pub struct ResponseSettings {
    pub motd: String,
    pub server_port: u16,
    pub max_players: u32,
}

/// The UI-facing summary the batch prober produces for one installation.
pub struct ServerResponse {
    pub id: String,
    pub name: String,
    pub path: String,
    pub status: String,
    pub core_jar: String,
    pub settings: ResponseSettings,
    pub error_message: Option<String>,
}

/// Snapshot of one attempt to list an installation directory: the directory
/// is missing, the listing failed with an error text, or it yielded the
/// names of its regular files in listing order.
pub enum DirListing {
    Missing,
    Unreadable(String),
    Files(Vec<String>),
}

/// Snapshot of one attempt to read and parse the directory's settings file.
pub enum SettingsFile {
    Absent,
    Unreadable(String),
    Malformed(String),
    Parsed(GeneralSettings),
}

/// Outcome of probing the lock artifact `players/LOCK`: the file is missing,
/// it could not be opened for writing, an exclusive lock was acquired (and
/// released), or the lock is held by another process.
pub enum LockProbe {
    Missing,
    OpenFailed,
    Acquired,
    Held,
}

} // verus!

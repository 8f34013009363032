use lumi_core::batch::{needs_status_probe, scan_and_check_one, scan_and_check_servers, ProbeEntry};
use lumi_core::model::{
    DirListing, GeneralSettings, LockProbe, SavedServer, ScanResult, SettingsFile,
};
use lumi_core::scan::scan_server_folder;
use lumi_core::status::check_server_status;

fn names(v: &[&str]) -> Vec<String> {
    v.iter().map(|s| s.to_string()).collect()
}

fn saved(id: &str, core: &str) -> SavedServer {
    SavedServer {
        id: id.to_string(),
        name: format!("server {id}"),
        path: format!("/srv/{id}"),
        core_jar: core.to_string(),
    }
}

fn parsed(motd: &str, port: u16, max_players: u32) -> SettingsFile {
    SettingsFile::Parsed(GeneralSettings { motd: motd.to_string(), server_port: port, max_players })
}

#[test]
fn lock_probe_outcomes_map_to_status_texts() {
    assert_eq!(check_server_status(&LockProbe::Missing), "unknown");
    assert_eq!(check_server_status(&LockProbe::OpenFailed), "unknown");
    assert_eq!(check_server_status(&LockProbe::Acquired), "offline");
    assert_eq!(check_server_status(&LockProbe::Held), "online");
}

#[test]
fn empty_saved_core_defaults_and_misses() {
    // A saved installation with no selected core and only `server.jar` on
    // disk: the default `core.jar` is not among the archives.
    let listing = DirListing::Files(names(&["server.jar", "settings.yml"]));
    let scan = scan_server_folder(&listing, &parsed("hi", 25565, 10));
    let s = saved("a", "");
    assert!(!needs_status_probe(&s, &scan));
    let r = scan_and_check_one(&s, &scan, &LockProbe::Missing);
    assert_eq!(r.status, "error");
    assert_eq!(r.core_jar, "core.jar");
    assert_eq!(r.error_message.as_deref(), Some("Core file 'core.jar' not found"));
    // The settings still come from the parsed configuration.
    assert_eq!(r.settings.motd, "hi");
    assert_eq!(r.settings.server_port, 25565);
    assert_eq!(r.settings.max_players, 10);
}

#[test]
fn present_core_reports_lock_status() {
    let listing = DirListing::Files(names(&["server.jar", "settings.yml"]));
    let scan = scan_server_folder(&listing, &parsed("hello", 1234, 5));
    let s = saved("b", "server.jar");
    assert!(needs_status_probe(&s, &scan));
    let r = scan_and_check_one(&s, &scan, &LockProbe::Held);
    assert_eq!(r.status, "online");
    assert_eq!(r.core_jar, "server.jar");
    assert!(r.error_message.is_none());
    assert_eq!(r.settings.motd, "hello");

    let r2 = scan_and_check_one(&s, &scan, &LockProbe::Acquired);
    assert_eq!(r2.status, "offline");
    let r3 = scan_and_check_one(&s, &scan, &LockProbe::Missing);
    assert_eq!(r3.status, "unknown");
}

#[test]
fn no_jars_entry_reports_error_with_zero_settings() {
    let listing = DirListing::Files(names(&["settings.yml"]));
    let scan = scan_server_folder(&listing, &parsed("m", 1, 2));
    let s = saved("c", "core.jar");
    assert!(!needs_status_probe(&s, &scan));
    let r = scan_and_check_one(&s, &scan, &LockProbe::Held);
    assert_eq!(r.status, "error");
    assert_eq!(r.error_message.as_deref(), Some("No jars found"));
    assert_eq!(r.core_jar, "core.jar");
    assert_eq!(r.settings.motd, "");
    assert_eq!(r.settings.server_port, 0);
    assert_eq!(r.settings.max_players, 0);
}

#[test]
fn missing_directory_entry_reports_settings_missing() {
    let scan = scan_server_folder(&DirListing::Missing, &SettingsFile::Absent);
    let s = saved("d", "x.jar");
    let r = scan_and_check_one(&s, &scan, &LockProbe::Held);
    assert_eq!(r.status, "error");
    assert_eq!(r.error_message.as_deref(), Some("Settings missing"));
}

#[test]
fn scan_error_entry_carries_the_error_text() {
    let listing = DirListing::Files(names(&["a.jar"]));
    let scan = scan_server_folder(&listing, &SettingsFile::Malformed("bad line 3".to_string()));
    let s = saved("e", "a.jar");
    let r = scan_and_check_one(&s, &scan, &LockProbe::Held);
    assert_eq!(r.status, "error");
    assert_eq!(r.error_message.as_deref(), Some("YAML parse error: bad line 3"));
}

#[test]
fn batch_returns_one_summary_per_entry_and_isolates_faults() {
    let entries = vec![
        ProbeEntry {
            saved: saved("ok", "srv.jar"),
            listing: DirListing::Files(names(&["srv.jar", "settings.yml"])),
            settings: parsed("up", 7, 8),
            lock: LockProbe::Held,
        },
        ProbeEntry {
            saved: saved("bad", "srv.jar"),
            listing: DirListing::Files(names(&["srv.jar"])),
            settings: SettingsFile::Malformed("corrupt".to_string()),
            lock: LockProbe::Held,
        },
        ProbeEntry {
            saved: saved("empty", ""),
            listing: DirListing::Files(names(&["other.txt"])),
            settings: SettingsFile::Absent,
            lock: LockProbe::Missing,
        },
        ProbeEntry {
            saved: saved("gone", "x.jar"),
            listing: DirListing::Missing,
            settings: SettingsFile::Absent,
            lock: LockProbe::Missing,
        },
    ];
    let r = scan_and_check_servers(&entries);
    assert_eq!(r.len(), 4);
    assert_eq!(r[0].status, "online");
    assert!(r[0].error_message.is_none());
    assert_eq!(r[1].status, "error");
    assert_eq!(r[1].error_message.as_deref(), Some("YAML parse error: corrupt"));
    assert_eq!(r[2].status, "error");
    assert_eq!(r[2].error_message.as_deref(), Some("No jars found"));
    assert_eq!(r[3].status, "error");
    assert_eq!(r[3].error_message.as_deref(), Some("Settings missing"));
    // Every summary carries its own entry's identity.
    assert_eq!(r[0].id, "ok");
    assert_eq!(r[1].id, "bad");
    assert_eq!(r[2].id, "empty");
    assert_eq!(r[3].id, "gone");
}

#[test]
fn every_summary_is_error_exactly_when_it_has_a_message() {
    let entries = vec![
        ProbeEntry {
            saved: saved("one", "a.jar"),
            listing: DirListing::Files(names(&["a.jar", "settings.yml"])),
            settings: parsed("m", 1, 2),
            lock: LockProbe::Acquired,
        },
        ProbeEntry {
            saved: saved("two", ""),
            listing: DirListing::Unreadable("denied".to_string()),
            settings: SettingsFile::Absent,
            lock: LockProbe::Missing,
        },
    ];
    for summary in scan_and_check_servers(&entries) {
        assert_eq!(summary.status == "error", summary.error_message.is_some());
    }
}

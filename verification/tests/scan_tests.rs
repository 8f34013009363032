use lumi_core::model::{DirListing, GeneralSettings, ScanResult, SettingsFile};
use lumi_core::scan::{filter_jars, is_jar_file_name, scan_server_folder};

fn names(v: &[&str]) -> Vec<String> {
    v.iter().map(|s| s.to_string()).collect()
}

fn parsed(motd: &str, port: u16, max_players: u32) -> SettingsFile {
    SettingsFile::Parsed(GeneralSettings { motd: motd.to_string(), server_port: port, max_players })
}

#[test]
fn jar_extension_is_detected_case_insensitively() {
    assert!(is_jar_file_name("server.jar"));
    assert!(is_jar_file_name("SERVER.JAR"));
    assert!(is_jar_file_name("paper.Jar"));
    assert!(is_jar_file_name("d.tar.jar"));
    assert!(!is_jar_file_name("readme.txt"));
    assert!(!is_jar_file_name("nojar"));
    assert!(!is_jar_file_name("c.jarx"));
    assert!(!is_jar_file_name("e."));
    assert!(!is_jar_file_name(".jar"));
    assert!(!is_jar_file_name(""));
}

#[test]
fn filter_keeps_archives_in_listing_order() {
    let listing = names(&["z.jar", "a.txt", "b.JAR", "settings.yml"]);
    let jars = filter_jars(&listing);
    assert_eq!(jars, vec!["z.jar".to_string(), "b.JAR".to_string()]);
}

#[test]
fn no_archives_reports_no_jars_with_settings_present() {
    let listing = DirListing::Files(names(&["settings.yml", "readme.txt"]));
    let r = scan_server_folder(&listing, &parsed("hi", 25565, 20));
    assert!(matches!(r, Ok(ScanResult::NoJars)));
}

#[test]
fn no_archives_reports_no_jars_with_settings_absent() {
    let listing = DirListing::Files(names(&["readme.txt"]));
    let r = scan_server_folder(&listing, &SettingsFile::Absent);
    assert!(matches!(r, Ok(ScanResult::NoJars)));
}

#[test]
fn no_archives_reports_no_jars_with_settings_malformed() {
    let listing = DirListing::Files(names(&["readme.txt"]));
    let r = scan_server_folder(&listing, &SettingsFile::Malformed("bad".to_string()));
    assert!(matches!(r, Ok(ScanResult::NoJars)));
}

#[test]
fn missing_directory_reports_no_settings() {
    let r = scan_server_folder(&DirListing::Missing, &SettingsFile::Absent);
    assert!(matches!(r, Ok(ScanResult::NoSettings)));
}

#[test]
fn unreadable_listing_is_an_error() {
    let listing = DirListing::Unreadable("permission denied".to_string());
    let r = scan_server_folder(&listing, &SettingsFile::Absent);
    assert_eq!(r.err().unwrap(), "Read dir error: permission denied");
}

#[test]
fn archives_without_settings_report_no_settings() {
    let listing = DirListing::Files(names(&["server.jar"]));
    let r = scan_server_folder(&listing, &SettingsFile::Absent);
    assert!(matches!(r, Ok(ScanResult::NoSettings)));
}

#[test]
fn unreadable_settings_is_an_error() {
    let listing = DirListing::Files(names(&["server.jar"]));
    let r = scan_server_folder(&listing, &SettingsFile::Unreadable("io oops".to_string()));
    assert_eq!(r.err().unwrap(), "Failed to read settings.yml: io oops");
}

#[test]
fn malformed_settings_is_an_error() {
    let listing = DirListing::Files(names(&["server.jar"]));
    let r = scan_server_folder(&listing, &SettingsFile::Malformed("bad indent".to_string()));
    assert_eq!(r.err().unwrap(), "YAML parse error: bad indent");
}

#[test]
fn single_archive_scans_to_valid_with_that_core() {
    let listing = DirListing::Files(names(&["settings.yml", "server.jar", "notes.txt"]));
    let r = scan_server_folder(&listing, &parsed("Welcome", 25565, 32));
    match r {
        Ok(ScanResult::Valid { config, jars }) => {
            assert_eq!(config.core_jar, "server.jar");
            assert_eq!(config.motd, "Welcome");
            assert_eq!(config.server_port, 25565);
            assert_eq!(config.max_players, 32);
            assert_eq!(jars, vec!["server.jar".to_string()]);
            assert!(jars.contains(&config.core_jar));
        }
        _ => panic!("expected Valid"),
    }
}

#[test]
fn several_archives_scan_to_needs_selection_with_empty_core() {
    let listing = DirListing::Files(names(&["a.jar", "settings.yml", "b.JAR"]));
    let r = scan_server_folder(&listing, &parsed("m", 1, 2));
    match r {
        Ok(ScanResult::NeedCoreSelection { jars, config }) => {
            assert_eq!(jars, vec!["a.jar".to_string(), "b.JAR".to_string()]);
            assert_eq!(config.core_jar, "");
            assert_eq!(config.motd, "m");
            assert_eq!(config.server_port, 1);
            assert_eq!(config.max_players, 2);
        }
        _ => panic!("expected NeedCoreSelection"),
    }
}

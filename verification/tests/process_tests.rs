use lumi_core::process::{
    java_command, join_path, kill_invocation, launch_precheck, lock_file_path, no_terminal_error,
    powershell_args, powershell_script, shell_command, taskkill_invocation, terminal_candidates,
    terminate_outcome,
};

#[test]
fn java_command_is_exact() {
    assert_eq!(java_command("server.jar"), "java -Xmx2G -Xms2G -jar \"server.jar\" nogui");
}

#[test]
fn shell_command_is_exact() {
    assert_eq!(
        shell_command("/srv/one", "server.jar"),
        "cd \"/srv/one\" && java -Xmx2G -Xms2G -jar \"server.jar\" nogui; exec bash"
    );
}

#[test]
fn powershell_invocation_is_exact() {
    let script = powershell_script("C:\\srv", "server.jar");
    assert_eq!(
        script,
        "$host.UI.RawUI.WindowTitle = 'Minecraft Server'; Set-Location -Path 'C:\\srv'; \
         java -Xmx2G -Xms2G -jar \"server.jar\" nogui; Read-Host 'Press Enter to exit...'"
    );
    let args = powershell_args("C:\\srv", "server.jar");
    assert_eq!(args, vec!["-NoLogo".to_string(), "-NoExit".to_string(), "-Command".to_string(), script]);
}

#[test]
fn terminal_fallback_list_is_ordered_and_complete() {
    let cmd = shell_command("/srv/one", "a.jar");
    let candidates = terminal_candidates(&cmd);
    let programs: Vec<&str> = candidates.iter().map(|t| t.program.as_str()).collect();
    assert_eq!(
        programs,
        vec![
            "gnome-terminal",
            "konsole",
            "xfce4-terminal",
            "xterm",
            "kitty",
            "alacritty",
            "x-terminal-emulator"
        ]
    );
    assert_eq!(candidates[0].args, vec!["--", "bash", "-c", &cmd]);
    assert_eq!(candidates[1].args, vec!["-e", "bash", "-c", &cmd]);
    assert_eq!(candidates[2].args, vec!["-x", "bash", "-c", &cmd]);
    for t in &candidates[3..] {
        assert_eq!(t.args, vec!["-e", "bash", "-c", &cmd]);
    }
}

#[test]
fn launch_precheck_fails_before_any_spawn_when_core_is_missing() {
    assert!(launch_precheck(true, "/srv/one/server.jar").is_ok());
    let err = launch_precheck(false, "/srv/one/server.jar").unwrap_err();
    assert_eq!(
        err,
        "Core file not found: /srv/one/server.jar\nPlease check server settings or select another core."
    );
}

#[test]
fn paths_are_joined_with_the_separator() {
    assert_eq!(join_path("/srv/one", "server.jar"), "/srv/one/server.jar");
    assert_eq!(lock_file_path("/srv/one"), "/srv/one/players/LOCK");
}

#[test]
fn terminate_invocations_are_exact() {
    let (prog, args) = taskkill_invocation(4242);
    assert_eq!(prog, "taskkill");
    assert_eq!(args, vec!["/PID", "4242", "/F", "/T"]);
    let (prog2, args2) = kill_invocation(7);
    assert_eq!(prog2, "kill");
    assert_eq!(args2, vec!["-9", "7"]);
}

#[test]
fn terminate_fails_only_when_the_utility_could_not_run() {
    assert!(terminate_outcome(None).is_ok());
    assert_eq!(terminate_outcome(Some("spawn failed".to_string())).unwrap_err(), "spawn failed");
}

#[test]
fn no_terminal_error_text_is_exact() {
    assert_eq!(no_terminal_error(), "No supported terminal emulator found.");
}

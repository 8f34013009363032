//! The process launcher and terminator: building the runtime invocation,
//! the per-platform terminal invocations with their ordered fallback list,
//! the pre-launch archive check, and the terminate invocations.
//!
//! Spawning and killing happen outside this crate; everything here only
//! decides what is to be spawned, in what order, and with what text.

use vstd::prelude::*;

use crate::numbers::{dec_str_of, u32_to_dec};

verus! {

/// One terminal program to try: its name and full argument list.
pub struct TerminalCommand {
    pub program: String,
    pub args: Vec<String>,
}

/// The runtime invocation for a selected core archive: fixed heap-size
/// flags, the archive, and the flag suppressing the runtime's own console
/// UI.
pub open spec fn java_command_text(core: Seq<char>) -> Seq<char> {
    "java -Xmx2G -Xms2G -jar \""@ + core + "\" nogui"@
}

/// The shell command a terminal program is handed: enter the installation
/// directory, run the runtime invocation, and keep the shell alive after
/// it exits.
pub open spec fn shell_command_text(path: Seq<char>, core: Seq<char>) -> Seq<char> {
    "cd \""@ + path + "\" && "@ + java_command_text(core) + "; exec bash"@
}

/// The script for the native scriptable shell host: title the window,
/// enter the installation directory, run the runtime invocation, and
/// prompt before closing.
pub open spec fn powershell_script_text(path: Seq<char>, core: Seq<char>) -> Seq<char> {
    "$host.UI.RawUI.WindowTitle = 'Minecraft Server'; Set-Location -Path '"@ + path + "'; "@
        + java_command_text(core) + "; Read-Host 'Press Enter to exit...'"@
}

/// The message for a launch attempt whose core archive is missing.
pub open spec fn core_not_found_text(jar_path: Seq<char>) -> Seq<char> {
    "Core file not found: "@ + jar_path
        + "\nPlease check server settings or select another core."@
}

/// Builds the runtime invocation for `core_jar`.
pub fn java_command(core_jar: &str) -> (r: String)
    ensures
        r@ == java_command_text(core_jar@),
{
    let mut m = String::from_str("java -Xmx2G -Xms2G -jar \"");
    m.append(core_jar);
    m.append("\" nogui");
    m
}

/// Builds the shell command handed to each terminal program.
pub fn shell_command(path: &str, core_jar: &str) -> (r: String)
    ensures
        r@ == shell_command_text(path@, core_jar@),
{
    let mut m = String::from_str("cd \"");
    m.append(path);
    m.append("\" && ");
    let java = java_command(core_jar);
    m.append(java.as_str());
    m.append("; exec bash");
    m
}

/// Builds the script for the native scriptable shell host.
pub fn powershell_script(path: &str, core_jar: &str) -> (r: String)
    ensures
        r@ == powershell_script_text(path@, core_jar@),
{
    let mut m = String::from_str(
        "$host.UI.RawUI.WindowTitle = 'Minecraft Server'; Set-Location -Path '",
    );
    m.append(path);
    m.append("'; ");
    let java = java_command(core_jar);
    m.append(java.as_str());
    m.append("; Read-Host 'Press Enter to exit...'");
    m
}

/// The argument list for the native shell host: keep the window open and
/// run the script.
pub fn powershell_args(path: &str, core_jar: &str) -> (r: Vec<String>)
    ensures
        r.deep_view() =~= seq![
            "-NoLogo"@,
            "-NoExit"@,
            "-Command"@,
            powershell_script_text(path@, core_jar@),
        ],
{
    let mut args: Vec<String> = Vec::new();
    args.push(String::from_str("-NoLogo"));
    args.push(String::from_str("-NoExit"));
    args.push(String::from_str("-Command"));
    args.push(powershell_script(path, core_jar));
    proof {
        assert(args.deep_view() =~= seq![
            "-NoLogo"@,
            "-NoExit"@,
            "-Command"@,
            powershell_script_text(path@, core_jar@),
        ]);
    }
    args
}

/// The name of the terminal program tried at position `k` of the fallback
/// list; the last entry is the generic terminal-launcher alias.
pub open spec fn terminal_program(k: int) -> Seq<char> {
    if k == 0 {
        "gnome-terminal"@
    } else if k == 1 {
        "konsole"@
    } else if k == 2 {
        "xfce4-terminal"@
    } else if k == 3 {
        "xterm"@
    } else if k == 4 {
        "kitty"@
    } else if k == 5 {
        "alacritty"@
    } else {
        "x-terminal-emulator"@
    }
}

/// The program-specific flag that makes the terminal at position `k` run a
/// command.
pub open spec fn terminal_flag(k: int) -> Seq<char> {
    if k == 0 {
        "--"@
    } else if k == 2 {
        "-x"@
    } else {
        "-e"@
    }
}

fn mk_terminal(program: &str, flag: &str, cmd: &str) -> (t: TerminalCommand)
    ensures
        t.program@ == program@,
        t.args.deep_view() =~= seq![flag@, "bash"@, "-c"@, cmd@],
{
    let mut args: Vec<String> = Vec::new();
    args.push(String::from_str(flag));
    args.push(String::from_str("bash"));
    args.push(String::from_str("-c"));
    args.push(String::from_str(cmd));
    proof {
        assert(args.deep_view() =~= seq![flag@, "bash"@, "-c"@, cmd@]);
    }
    TerminalCommand { program: String::from_str(program), args }
}

/// The ordered fallback list of terminal invocations for `shell_cmd`: six
/// known terminal programs, then the generic terminal-launcher alias, each
/// told in its own convention to run the command and keep the shell alive.
pub fn terminal_candidates(shell_cmd: &str) -> (r: Vec<TerminalCommand>)
    ensures
        r@.len() == 7,
        forall|k: int|
            0 <= k < 7 ==> (#[trigger] r@[k]).program@ == terminal_program(k) && r@[k].args.deep_view()
                =~= seq![terminal_flag(k), "bash"@, "-c"@, shell_cmd@],
{
    let mut r: Vec<TerminalCommand> = Vec::new();
    r.push(mk_terminal("gnome-terminal", "--", shell_cmd));
    r.push(mk_terminal("konsole", "-e", shell_cmd));
    r.push(mk_terminal("xfce4-terminal", "-x", shell_cmd));
    r.push(mk_terminal("xterm", "-e", shell_cmd));
    r.push(mk_terminal("kitty", "-e", shell_cmd));
    r.push(mk_terminal("alacritty", "-e", shell_cmd));
    r.push(mk_terminal("x-terminal-emulator", "-e", shell_cmd));
    r
}

/// The message reported when no terminal program could be spawned.
pub fn no_terminal_error() -> (r: String)
    ensures
        r@ == "No supported terminal emulator found."@,
{
    String::from_str("No supported terminal emulator found.")
}

/// Joins a directory and an entry name with the path separator.
pub fn join_path(dir: &str, name: &str) -> (r: String)
    ensures
        r@ == dir@ + "/"@ + name@,
{
    let mut m = String::from_str(dir);
    m.append("/");
    m.append(name);
    m
}

/// The fixed relative location of the lock artifact under an installation
/// directory.
pub fn lock_file_path(path: &str) -> (r: String)
    ensures
        r@ == path@ + "/players/LOCK"@,
{
    let mut m = String::from_str(path);
    m.append("/players/LOCK");
    m
}

/// Decides whether a launch may proceed: it fails, naming the resolved
/// archive path, exactly when the archive does not exist.
pub fn launch_precheck(jar_exists: bool, jar_path: &str) -> (r: Result<(), String>)
    ensures
        r is Ok <==> jar_exists,
        r matches Err(m) ==> m@ == core_not_found_text(jar_path@),
{
    if jar_exists {
        Ok(())
    } else {
        let mut m = String::from_str("Core file not found: ");
        m.append(jar_path);
        m.append("\nPlease check server settings or select another core.");
        Err(m)
    }
}

/// The whole-tree forceful kill through the OS process-management utility:
/// the utility's name and argument list for `pid`.
pub fn taskkill_invocation(pid: u32) -> (r: (String, Vec<String>))
    ensures
        r.0@ == "taskkill"@,
        r.1.deep_view() =~= seq!["/PID"@, dec_str_of(pid as nat), "/F"@, "/T"@],
{
    let mut args: Vec<String> = Vec::new();
    args.push(String::from_str("/PID"));
    args.push(u32_to_dec(pid));
    args.push(String::from_str("/F"));
    args.push(String::from_str("/T"));
    proof {
        assert(args.deep_view() =~= seq!["/PID"@, dec_str_of(pid as nat), "/F"@, "/T"@]);
    }
    (String::from_str("taskkill"), args)
}

/// The unconditional termination signal sent directly to `pid`: the
/// utility's name and argument list.
pub fn kill_invocation(pid: u32) -> (r: (String, Vec<String>))
    ensures
        r.0@ == "kill"@,
        r.1.deep_view() =~= seq!["-9"@, dec_str_of(pid as nat)],
{
    let mut args: Vec<String> = Vec::new();
    args.push(String::from_str("-9"));
    args.push(u32_to_dec(pid));
    proof {
        assert(args.deep_view() =~= seq!["-9"@, dec_str_of(pid as nat)]);
    }
    (String::from_str("kill"), args)
}

/// The terminate verdict once the process-management utility has been
/// invoked: only a failure to invoke it at all is an error; a utility that
/// ran and complained (the process was already gone) still means the
/// desired end state holds.
pub fn terminate_outcome(invoke_error: Option<String>) -> (r: Result<(), String>)
    ensures
        r is Ok <==> invoke_error is None,
        r matches Err(m) ==> (invoke_error matches Some(e) && m@ == e@),
{
    match invoke_error {
        None => Ok(()),
        Some(e) => Err(e),
    }
}

} // verus!

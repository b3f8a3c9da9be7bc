//! The commands by which the launches are carried out on each platform.
//!
//! Nothing is started here. Each function says which program to start with
//! which arguments; the caller starts it and reports a failure under the
//! text that comes with the command.

use vstd::prelude::*;
use vstd::string::*;
use crate::text::{chars_of, ends_with, extend, has_suffix, replace, replaced, string_of, texts};

verus! {

/// The platform that the program runs on.
#[derive(Clone, Copy, Debug, PartialEq, Eq, Structural)]
pub enum Platform {
    Windows,
    MacOs,
    Linux,
}

/// Windows process creation flag: the new process has no console window.
pub const CREATE_NO_WINDOW: u32 = 0x0800_0000;

/// Windows process creation flag: the new process does not inherit the
/// console of its parent.
pub const DETACHED_PROCESS: u32 = 0x0000_0008;

/// Windows process creation flag: the new process is the root of a new
/// process group.
pub const CREATE_NEW_PROCESS_GROUP: u32 = 0x0000_0200;

/// A program to start.
#[derive(Clone, Debug, PartialEq, Eq)]
pub struct Spawn {
    pub program: String,
    pub args: Vec<String>,
    /// The directory to start the program in; empty for the current one.
    pub working_dir: String,
    /// Process creation flags, used on Windows only.
    pub creation_flags: u32,
    /// What a failure to start the program is reported with, followed by
    /// the reason.
    pub failure: String,
}

pub struct SpawnView {
    pub program: Seq<char>,
    pub args: Seq<Seq<char>>,
    pub working_dir: Seq<char>,
    pub creation_flags: u32,
    pub failure: Seq<char>,
}

impl View for Spawn {
    type V = SpawnView;

    open spec fn view(&self) -> SpawnView {
        SpawnView {
            program: self.program@,
            args: texts(self.args@),
            working_dir: self.working_dir@,
            creation_flags: self.creation_flags,
            failure: self.failure@,
        }
    }
}

/// The views of a sequence of commands, position by position.
pub open spec fn spawn_views(list: Seq<Spawn>) -> Seq<SpawnView> {
    Seq::new(list.len(), |i: int| list[i]@)
}

/// The command that hands `target` to the platform's opener: `cmd /C start
/// "" target` on Windows, `open target` on macOS, `xdg-open target` on
/// Linux.
pub open spec fn opener(target: Seq<char>, platform: Platform, failure: Seq<char>) -> SpawnView {
    match platform {
        Platform::Windows => SpawnView {
            program: "cmd"@,
            args: seq!["/C"@, "start"@, ""@, target],
            working_dir: seq![],
            creation_flags: CREATE_NO_WINDOW,
            failure,
        },
        Platform::MacOs => SpawnView {
            program: "open"@,
            args: seq![target],
            working_dir: seq![],
            creation_flags: 0,
            failure,
        },
        Platform::Linux => SpawnView {
            program: "xdg-open"@,
            args: seq![target],
            working_dir: seq![],
            creation_flags: 0,
            failure,
        },
    }
}

/// The command that opens a URI with the handler of its scheme.
pub open spec fn uri_spawn(uri: Seq<char>, platform: Platform) -> SpawnView {
    opener(uri, platform, "Failed to launch URI "@ + uri + ": "@)
}

/// The command that opens a URL in the default browser.
pub open spec fn url_spawn(url: Seq<char>, platform: Platform) -> SpawnView {
    opener(url, platform, "Failed to open URL "@ + url + ": "@)
}

/// The command that opens a folder in the file manager.
pub open spec fn folder_spawn(folder: Seq<char>, platform: Platform) -> SpawnView {
    let failure = "Failed to open folder "@ + folder + ": "@;
    match platform {
        Platform::Windows => SpawnView {
            program: "explorer"@,
            args: seq![folder],
            working_dir: seq![],
            creation_flags: DETACHED_PROCESS,
            failure,
        },
        _ => opener(folder, platform, failure),
    }
}

/// The command that starts an executable file: the file itself, detached
/// from this program on Windows; on macOS an application bundle (`.app`)
/// goes through `open`.
pub open spec fn exe_spawn(path: Seq<char>, platform: Platform) -> SpawnView {
    let failure = "Failed to launch "@ + path + ": "@;
    let direct = SpawnView {
        program: path,
        args: seq![],
        working_dir: seq![],
        creation_flags: 0,
        failure,
    };
    match platform {
        Platform::Windows => SpawnView {
            creation_flags: DETACHED_PROCESS | CREATE_NEW_PROCESS_GROUP,
            ..direct
        },
        Platform::MacOs => if has_suffix(path, ".app"@) {
            opener(path, platform, failure)
        } else {
            direct
        },
        Platform::Linux => direct,
    }
}

/// The command that starts a target that is neither a URI nor an existing
/// file: through `start` on Windows, as an application name on macOS, as a
/// command on Linux.
pub open spec fn command_spawn(target: Seq<char>, platform: Platform) -> SpawnView {
    match platform {
        Platform::Windows => opener(target, platform, "Failed to start "@ + target + ": "@),
        Platform::MacOs => SpawnView {
            program: "open"@,
            args: seq!["-a"@, target],
            working_dir: seq![],
            creation_flags: 0,
            failure: "Failed to open "@ + target + ": "@,
        },
        Platform::Linux => SpawnView {
            program: target,
            args: seq![],
            working_dir: seq![],
            creation_flags: 0,
            failure: "Failed to start "@ + target + ": "@,
        },
    }
}

fn own(text: &str) -> (s: String)
    ensures
        s@ == text@,
{
    text.to_string()
}

fn framed(before: &str, middle: &str, after: &str) -> (s: String)
    ensures
        s@ == before@ + middle@ + after@,
{
    let mut s = before.to_string();
    s.append(middle);
    s.append(after);
    s
}

fn one(arg: &str) -> (args: Vec<String>)
    ensures
        texts(args@) == seq![arg@],
{
    let mut args: Vec<String> = Vec::new();
    args.push(own(arg));
    args
}

fn none() -> (args: Vec<String>)
    ensures
        texts(args@) == Seq::<Seq<char>>::empty(),
{
    let args: Vec<String> = Vec::new();
    args
}

fn open_with(target: &str, platform: Platform, failure: String) -> (spawn: Spawn)
    ensures
        spawn@ == opener(target@, platform, failure@),
{
    match platform {
        Platform::Windows => {
            let mut args: Vec<String> = Vec::new();
            args.push(own("/C"));
            args.push(own("start"));
            args.push(own(""));
            args.push(own(target));
            assert(texts(args@) =~= seq!["/C"@, "start"@, ""@, target@]);
            Spawn {
                program: own("cmd"),
                args,
                working_dir: String::new(),
                creation_flags: CREATE_NO_WINDOW,
                failure,
            }
        },
        Platform::MacOs => Spawn {
            program: own("open"),
            args: one(target),
            working_dir: String::new(),
            creation_flags: 0,
            failure,
        },
        Platform::Linux => Spawn {
            program: own("xdg-open"),
            args: one(target),
            working_dir: String::new(),
            creation_flags: 0,
            failure,
        },
    }
}

/// The command that opens a URI with the handler of its scheme.
pub fn launch_uri(uri: &str, platform: Platform) -> (spawn: Spawn)
    ensures
        spawn@ == uri_spawn(uri@, platform),
{
    open_with(uri, platform, framed("Failed to launch URI ", uri, ": "))
}

/// The command that opens a URL in the default browser.
pub fn open_url(url: &str, platform: Platform) -> (spawn: Spawn)
    ensures
        spawn@ == url_spawn(url@, platform),
{
    open_with(url, platform, framed("Failed to open URL ", url, ": "))
}

/// The command that opens a folder in the file manager.
pub fn open_folder(folder: &str, platform: Platform) -> (spawn: Spawn)
    ensures
        spawn@ == folder_spawn(folder@, platform),
{
    let failure = framed("Failed to open folder ", folder, ": ");
    match platform {
        Platform::Windows => Spawn {
            program: own("explorer"),
            args: one(folder),
            working_dir: String::new(),
            creation_flags: DETACHED_PROCESS,
            failure,
        },
        _ => open_with(folder, platform, failure),
    }
}

/// The command that starts an executable file.
pub fn launch_exe(path: &str, platform: Platform) -> (spawn: Spawn)
    ensures
        spawn@ == exe_spawn(path@, platform),
{
    let failure = framed("Failed to launch ", path, ": ");
    match platform {
        Platform::Windows => Spawn {
            program: own(path),
            args: none(),
            working_dir: String::new(),
            creation_flags: DETACHED_PROCESS | CREATE_NEW_PROCESS_GROUP,
            failure,
        },
        Platform::MacOs => {
            if ends_with(&chars_of(path), &chars_of(".app")) {
                open_with(path, platform, failure)
            } else {
                Spawn {
                    program: own(path),
                    args: none(),
                    working_dir: String::new(),
                    creation_flags: 0,
                    failure,
                }
            }
        },
        Platform::Linux => Spawn {
            program: own(path),
            args: none(),
            working_dir: String::new(),
            creation_flags: 0,
            failure,
        },
    }
}

/// The command that starts a target that is neither a URI nor an existing
/// file.
pub fn launch_via_open(target: &str, platform: Platform) -> (spawn: Spawn)
    ensures
        spawn@ == command_spawn(target@, platform),
{
    match platform {
        Platform::Windows => open_with(target, platform, framed("Failed to start ", target, ": ")),
        Platform::MacOs => {
            let mut args: Vec<String> = Vec::new();
            args.push(own("-a"));
            args.push(own(target));
            assert(texts(args@) =~= seq!["-a"@, target@]);
            Spawn {
                program: own("open"),
                args,
                working_dir: String::new(),
                creation_flags: 0,
                failure: framed("Failed to open ", target, ": "),
            }
        },
        Platform::Linux => Spawn {
            program: own(target),
            args: none(),
            working_dir: String::new(),
            creation_flags: 0,
            failure: framed("Failed to start ", target, ": "),
        },
    }
}

/// A text made safe to stand between double quotes in AppleScript: every
/// double quote gets a backslash in front.
pub open spec fn double_quotes_escaped(text: Seq<char>) -> Seq<char> {
    replaced(text, seq!['"'], seq!['\\', '"'])
}

/// A text made safe to stand between single quotes in a shell command:
/// every single quote closes the quoting, stands escaped, and opens it
/// again.
pub open spec fn single_quotes_escaped(text: Seq<char>) -> Seq<char> {
    replaced(text, seq!['\''], seq!['\'', '\\', '\'', '\''])
}

/// The shell command that changes to `working_dir` and then runs `command`.
pub open spec fn in_directory(command: Seq<char>, working_dir: Seq<char>) -> Seq<char> {
    "cd '"@ + single_quotes_escaped(working_dir) + "' && "@ + command
}

/// The AppleScript that runs `command` in a new window of Terminal.app. If
/// the window is not to stay open, ` ; exit` follows the command.
pub open spec fn terminal_script(command: Seq<char>, working_dir: Seq<char>, keep_open: bool) -> Seq<
    char,
> {
    let head = "tell application \"Terminal\" to do script \""@;
    if keep_open {
        if working_dir.len() == 0 {
            head + double_quotes_escaped(command) + "\""@
        } else {
            head + in_directory(double_quotes_escaped(command), working_dir) + "\""@
        }
    } else {
        let line = if working_dir.len() == 0 {
            command
        } else {
            in_directory(command, working_dir)
        };
        head + double_quotes_escaped(line) + " ; exit\""@
    }
}

/// The command handed to `bash -c` on Linux: the command itself, followed
/// by a shell if the window is to stay open.
pub open spec fn shell_line(command: Seq<char>, keep_open: bool) -> Seq<char> {
    if keep_open {
        command + "; exec bash"@
    } else {
        command
    }
}

/// One way to run a shell line in a terminal emulator on Linux.
pub open spec fn emulator(program: Seq<char>, args: Seq<Seq<char>>, line: Seq<char>, working_dir: Seq<
    char,
>) -> SpawnView {
    SpawnView {
        program,
        args: args.push(line),
        working_dir,
        creation_flags: 0,
        failure: "Failed to launch terminal: "@,
    }
}

/// The commands that open a terminal window and run `command` in it, in
/// the order in which they are to be tried; the first that starts ends the
/// trying. Windows and macOS have one way, Linux five.
pub open spec fn terminal_spawns(
    command: Seq<char>,
    working_dir: Seq<char>,
    keep_open: bool,
    platform: Platform,
) -> Seq<SpawnView> {
    match platform {
        Platform::Windows => seq![
            SpawnView {
                program: "cmd"@,
                args: seq![
                    "/C"@,
                    "start"@,
                    "cmd"@,
                    if keep_open {
                        "/K"@
                    } else {
                        "/C"@
                    },
                    command,
                ],
                working_dir,
                creation_flags: CREATE_NO_WINDOW,
                failure: "Failed to launch terminal: "@,
            },
        ],
        Platform::MacOs => seq![
            SpawnView {
                program: "osascript"@,
                args: seq!["-e"@, terminal_script(command, working_dir, keep_open)],
                working_dir: seq![],
                creation_flags: 0,
                failure: "Failed to launch terminal: "@,
            },
        ],
        Platform::Linux => {
            let line = shell_line(command, keep_open);
            seq![
                emulator("x-terminal-emulator"@, seq!["-e"@, "bash"@, "-c"@], line, working_dir),
                emulator("gnome-terminal"@, seq!["--"@, "bash"@, "-c"@], line, working_dir),
                emulator("konsole"@, seq!["-e"@, "bash"@, "-c"@], line, working_dir),
                emulator("xfce4-terminal"@, seq!["-e"@, "bash -c"@], line, working_dir),
                emulator("xterm"@, seq!["-e"@, "bash"@, "-c"@], line, working_dir),
            ]
        },
    }
}

/// What is reported when none of the terminal emulators could be started.
pub open spec fn no_terminal_message() -> Seq<char> {
    "No terminal emulator found. Install gnome-terminal, konsole, xfce4-terminal, or xterm."@
}

fn escape_double_quotes(text: &Vec<char>) -> (out: Vec<char>)
    ensures
        out@ == double_quotes_escaped(text@),
{
    let mut pattern: Vec<char> = Vec::new();
    pattern.push('"');
    let mut with: Vec<char> = Vec::new();
    with.push('\\');
    with.push('"');
    assert(with@ =~= seq!['\\', '"']);
    replace(text, &pattern, &with)
}

fn escape_single_quotes(text: &Vec<char>) -> (out: Vec<char>)
    ensures
        out@ == single_quotes_escaped(text@),
{
    let mut pattern: Vec<char> = Vec::new();
    pattern.push('\'');
    let mut with: Vec<char> = Vec::new();
    with.push('\'');
    with.push('\\');
    with.push('\'');
    with.push('\'');
    assert(with@ =~= seq!['\'', '\\', '\'', '\'']);
    replace(text, &pattern, &with)
}

fn change_directory(command: &Vec<char>, working_dir: &Vec<char>) -> (out: Vec<char>)
    ensures
        out@ == in_directory(command@, working_dir@),
{
    let mut out = chars_of("cd '");
    extend(&mut out, &escape_single_quotes(working_dir));
    extend(&mut out, &chars_of("' && "));
    extend(&mut out, command);
    out
}

/// The AppleScript that runs `command` in a new window of Terminal.app.
pub fn macos_terminal_script(command: &str, working_dir: &str, keep_open: bool) -> (script: String)
    ensures
        script@ == terminal_script(command@, working_dir@, keep_open),
{
    let command = chars_of(command);
    let working_dir = chars_of(working_dir);
    let mut out = chars_of("tell application \"Terminal\" to do script \"");
    if keep_open {
        if working_dir.len() == 0 {
            extend(&mut out, &escape_double_quotes(&command));
        } else {
            extend(&mut out, &change_directory(&escape_double_quotes(&command), &working_dir));
        }
        extend(&mut out, &chars_of("\""));
    } else {
        let line = if working_dir.len() == 0 {
            command
        } else {
            change_directory(&command, &working_dir)
        };
        extend(&mut out, &escape_double_quotes(&line));
        extend(&mut out, &chars_of(" ; exit\""));
    }
    string_of(&out)
}

fn emulator_command(program: &str, args: Vec<String>, line: &str, working_dir: &str) -> (spawn: Spawn)
    ensures
        spawn@ == emulator(program@, texts(args@), line@, working_dir@),
{
    let ghost before = texts(args@);
    let mut args = args;
    args.push(own(line));
    assert(texts(args@) =~= before.push(line@));
    Spawn {
        program: own(program),
        args,
        working_dir: own(working_dir),
        creation_flags: 0,
        failure: own("Failed to launch terminal: "),
    }
}

fn three(a: &str, b: &str, c: &str) -> (args: Vec<String>)
    ensures
        texts(args@) == seq![a@, b@, c@],
{
    let mut args: Vec<String> = Vec::new();
    args.push(own(a));
    args.push(own(b));
    args.push(own(c));
    args
}

fn two(a: &str, b: &str) -> (args: Vec<String>)
    ensures
        texts(args@) == seq![a@, b@],
{
    let mut args: Vec<String> = Vec::new();
    args.push(own(a));
    args.push(own(b));
    args
}

/// The commands that open a terminal window and run `command` in it, in
/// the order in which they are to be tried. `working_dir` is the directory
/// to run in, after variable expansion, or empty.
pub fn terminal_commands(command: &str, working_dir: &str, keep_open: bool, platform: Platform) -> (list:
    Vec<Spawn>)
    ensures
        spawn_views(list@) == terminal_spawns(command@, working_dir@, keep_open, platform),
{
    let mut list: Vec<Spawn> = Vec::new();
    match platform {
        Platform::Windows => {
            let mut args: Vec<String> = Vec::new();
            args.push(own("/C"));
            args.push(own("start"));
            args.push(own("cmd"));
            args.push(
                own(
                    if keep_open {
                        "/K"
                    } else {
                        "/C"
                    },
                ),
            );
            args.push(own(command));
            assert(texts(args@) =~= seq![
                "/C"@,
                "start"@,
                "cmd"@,
                if keep_open {
                    "/K"@
                } else {
                    "/C"@
                },
                command@,
            ]);
            list.push(
                Spawn {
                    program: own("cmd"),
                    args,
                    working_dir: own(working_dir),
                    creation_flags: CREATE_NO_WINDOW,
                    failure: own("Failed to launch terminal: "),
                },
            );
        },
        Platform::MacOs => {
            let script = macos_terminal_script(command, working_dir, keep_open);
            list.push(
                Spawn {
                    program: own("osascript"),
                    args: two("-e", script.as_str()),
                    working_dir: String::new(),
                    creation_flags: 0,
                    failure: own("Failed to launch terminal: "),
                },
            );
        },
        Platform::Linux => {
            let mut line = own(command);
            if keep_open {
                line.append("; exec bash");
            }
            list.push(
                emulator_command(
                    "x-terminal-emulator",
                    three("-e", "bash", "-c"),
                    line.as_str(),
                    working_dir,
                ),
            );
            list.push(
                emulator_command(
                    "gnome-terminal",
                    three("--", "bash", "-c"),
                    line.as_str(),
                    working_dir,
                ),
            );
            list.push(
                emulator_command("konsole", three("-e", "bash", "-c"), line.as_str(), working_dir),
            );
            list.push(
                emulator_command("xfce4-terminal", two("-e", "bash -c"), line.as_str(), working_dir),
            );
            list.push(
                emulator_command("xterm", three("-e", "bash", "-c"), line.as_str(), working_dir),
            );
        },
    }
    list
}

/// What a step is reported with when no terminal could be started. On
/// Linux, where several emulators are tried, that none was found; elsewhere
/// the failure of the one command, if it is known.
pub open spec fn terminal_failure_text(platform: Platform, last: Option<Seq<char>>) -> Seq<char> {
    match (platform, last) {
        (Platform::Linux, _) => no_terminal_message(),
        (_, None) => no_terminal_message(),
        (_, Some(failure)) => failure,
    }
}

/// What a terminal step is reported with when none of its commands could
/// be started. `last` is the failure of the command tried last.
pub fn terminal_failure(platform: Platform, last: Option<String>) -> (text: String)
    ensures
        text@ == terminal_failure_text(platform, crate::config::text_of(last)),
{
    match (platform, last) {
        (Platform::Linux, _) => no_terminal_found(),
        (_, None) => no_terminal_found(),
        (_, Some(failure)) => failure,
    }
}

/// What is reported when none of the terminal emulators could be started.
pub fn no_terminal_found() -> (text: String)
    ensures
        text@ == no_terminal_message(),
{
    own("No terminal emulator found. Install gnome-terminal, konsole, xfce4-terminal, or xterm.")
}

} // verus!

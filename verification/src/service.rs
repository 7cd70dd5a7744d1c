//! The command lines that manage the dsh web service, and the decisions taken
//! while waiting for a command to finish.
//!
//! dsh and npm are installed as npm globals, i.e. `dsh.cmd` / `npm.cmd`
//! wrappers that `CreateProcess` cannot start directly, so every invocation
//! goes through `cmd /C`. The spawned `cmd.exe` is the root of the process
//! tree; killing it with `taskkill /T /F` also kills the node/dsh
//! grandchildren. This module says what to run; the application runs it.
use vstd::prelude::*;
use vstd::string::*;

use crate::text::{chars_of, decimal, decimal_of, string_of, trim, trimmed};

verus! {

/// Host that the service binds.
pub const HOST: &'static str = "127.0.0.1";

/// Port that the service listens on.
pub const PORT: u16 = 3080;

/// How long the service may take to accept connections after it was spawned.
pub const READY_TIMEOUT_SECS: u64 = 30;

/// Interval between two readiness probes.
pub const POLL_INTERVAL_MS: u64 = 300;

/// Interval between two checks on a command that captures its output.
pub const OUTPUT_POLL_MS: u64 = 100;

/// Interval between two checks on a command whose output is discarded.
pub const STATUS_POLL_MS: u64 = 200;

/// A process to start: program, arguments, and how long to wait for it to
/// finish (`None`: it is not waited for with a deadline).
pub struct Invocation {
    pub program: String,
    pub args: Vec<String>,
    pub timeout_secs: Option<u64>,
}

/// The texts of a vector of strings.
pub open spec fn texts(v: Seq<String>) -> Seq<Seq<char>> {
    v.map_values(|s: String| s@)
}

/// The command line of an invocation: program, then arguments.
pub open spec fn command_line(inv: Invocation) -> Seq<Seq<char>> {
    seq![inv.program@] + texts(inv.args@)
}

fn text(s: &str) -> (r: String)
    ensures
        r@ == s@,
{
    String::from_str(s)
}

/// Runs `cmd args...` through `cmd /C`, waiting at most `timeout_secs`.
pub fn via_cmd(cmd: &str, args: &Vec<&str>, timeout_secs: Option<u64>) -> (r: Invocation)
    ensures
        r.program@ == "cmd"@,
        texts(r.args@) == seq!["/C"@, cmd@] + args@.map_values(|a: &str| a@),
        r.timeout_secs == timeout_secs,
{
    let mut v: Vec<String> = Vec::new();
    v.push(text("/C"));
    v.push(text(cmd));
    for i in 0..args.len()
        invariant
            texts(v@) == seq!["/C"@, cmd@] + args@.take(i as int).map_values(|a: &str| a@),
    {
        let ghost before = v@;
        let t = text(args[i]);
        v.push(t);
        assert(texts(v@) =~= texts(before).push(args@[i as int]@));
        assert(args@.take(i + 1) =~= args@.take(i as int).push(args@[i as int]));
        assert(args@.take(i + 1).map_values(|a: &str| a@) =~= args@.take(i as int).map_values(
            |a: &str| a@,
        ).push(args@[i as int]@));
        assert(texts(v@) =~= seq!["/C"@, cmd@] + args@.take(i + 1).map_values(|a: &str| a@));
    }
    assert(args@.take(args.len() as int) =~= args@);
    Invocation { program: text("cmd"), args: v, timeout_secs }
}

/// The query for the installed dsh version: `dsh --version`, for at most
/// 15 seconds. Its trimmed output is the version; no output means dsh is
/// missing.
pub fn dsh_version() -> (r: Invocation)
    ensures
        command_line(r) == seq!["cmd"@, "/C"@, "dsh"@, "--version"@],
        r.timeout_secs == Some(15u64),
{
    let r = via_cmd("dsh", &vec!["--version"], Some(15));
    assert(command_line(r) =~= seq!["cmd"@, "/C"@, "dsh"@, "--version"@]);
    r
}

/// The query for the installed dsh version (the same as [`dsh_version`]).
pub fn installed_version() -> (r: Invocation)
    ensures
        command_line(r) == seq!["cmd"@, "/C"@, "dsh"@, "--version"@],
        r.timeout_secs == Some(15u64),
{
    dsh_version()
}

/// The query for the latest version published to the npm registry:
/// `npm view @deepseek-ai/dsh version`, for at most 30 seconds.
pub fn registry_latest() -> (r: Invocation)
    ensures
        command_line(r) == seq![
            "cmd"@,
            "/C"@,
            "npm"@,
            "view"@,
            "@deepseek-ai/dsh"@,
            "version"@,
        ],
        r.timeout_secs == Some(30u64),
{
    let r = via_cmd("npm", &vec!["view", "@deepseek-ai/dsh", "version"], Some(30));
    assert(command_line(r) =~= seq![
        "cmd"@,
        "/C"@,
        "npm"@,
        "view"@,
        "@deepseek-ai/dsh"@,
        "version"@,
    ]);
    r
}

/// The global npm installation of dsh at version (or tag) `target`:
/// `npm i -g @deepseek-ai/dsh@<target>`, for at most 600 seconds.
pub fn install_dsh_version(target: &str) -> (r: Invocation)
    ensures
        command_line(r) == seq![
            "cmd"@,
            "/C"@,
            "npm"@,
            "i"@,
            "-g"@,
            "@deepseek-ai/dsh@"@ + target@,
        ],
        r.timeout_secs == Some(600u64),
{
    let mut package = text("@deepseek-ai/dsh@");
    package.append(target);
    let r = via_cmd("npm", &vec!["i", "-g", package.as_str()], Some(600));
    assert(command_line(r) =~= seq![
        "cmd"@,
        "/C"@,
        "npm"@,
        "i"@,
        "-g"@,
        "@deepseek-ai/dsh@"@ + target@,
    ]);
    r
}

/// The installation of the latest dsh: `npm i -g @deepseek-ai/dsh@latest`.
pub fn install_latest() -> (r: Invocation)
    ensures
        command_line(r) == seq![
            "cmd"@,
            "/C"@,
            "npm"@,
            "i"@,
            "-g"@,
            "@deepseek-ai/dsh@"@ + "latest"@,
        ],
        r.timeout_secs == Some(600u64),
{
    install_dsh_version("latest")
}

/// The dsh web service on `port`, hidden, bound to [`HOST`], without opening
/// a browser next to the client's own window:
/// `cmd /C dsh web --host 127.0.0.1 --port <port> --no-open`. The spawned
/// `cmd.exe` roots the whole process tree.
pub fn spawn_dsh_on(port: u16) -> (r: Invocation)
    ensures
        command_line(r) == seq![
            "cmd"@,
            "/C"@,
            "dsh"@,
            "web"@,
            "--host"@,
            "127.0.0.1"@,
            "--port"@,
            decimal_of(port as nat),
            "--no-open"@,
        ],
        r.timeout_secs is None,
{
    let p = decimal(port as u64);
    let r = via_cmd(
        "dsh",
        &vec!["web", "--host", HOST, "--port", p.as_str(), "--no-open"],
        None,
    );
    assert(command_line(r) =~= seq![
        "cmd"@,
        "/C"@,
        "dsh"@,
        "web"@,
        "--host"@,
        "127.0.0.1"@,
        "--port"@,
        decimal_of(port as nat),
        "--no-open"@,
    ]);
    r
}

/// The dsh web service on the default service port [`PORT`].
pub fn spawn_dsh() -> (r: Invocation)
    ensures
        command_line(r) == seq![
            "cmd"@,
            "/C"@,
            "dsh"@,
            "web"@,
            "--host"@,
            "127.0.0.1"@,
            "--port"@,
            decimal_of(3080),
            "--no-open"@,
        ],
        r.timeout_secs is None,
{
    spawn_dsh_on(PORT)
}

/// The kill of the process tree rooted at `pid`: `taskkill /PID <pid> /T /F`.
pub fn kill_tree_by_pid(pid: u32) -> (r: Invocation)
    ensures
        command_line(r) == seq!["taskkill"@, "/PID"@, decimal_of(pid as nat), "/T"@, "/F"@],
        r.timeout_secs is None,
{
    let p = decimal(pid as u64);
    let args: Vec<String> = vec![text("/PID"), p, text("/T"), text("/F")];
    let r = Invocation { program: text("taskkill"), args, timeout_secs: None };
    assert(command_line(r) =~= seq![
        "taskkill"@,
        "/PID"@,
        decimal_of(pid as nat),
        "/T"@,
        "/F"@,
    ]);
    r
}

/// What a check on a running command found.
pub enum WaitStatus {
    /// The command has exited, successfully or not.
    Exited { success: bool },
    /// The command is still running.
    Running,
    /// The status could not be read.
    Failed,
}

/// What to do next while waiting for a command.
#[derive(Clone, Copy, Debug, PartialEq, Eq, Structural)]
pub enum WaitStep {
    /// Stop waiting: the command succeeded (`true`) or failed (`false`).
    Done(bool),
    /// The deadline has passed: kill the command, reap it, and fail.
    KillAndFail,
    /// Sleep this many milliseconds, then check again.
    Sleep(u64),
}

/// The next step while waiting for a command: a finished command ends the
/// wait with its success; a running one is killed once `past_deadline`, and
/// otherwise checked again after `interval_ms`; an unreadable status fails.
pub fn wait_step(status: &WaitStatus, past_deadline: bool, interval_ms: u64) -> (r: WaitStep)
    ensures
        r == match *status {
            WaitStatus::Exited { success } => WaitStep::Done(success),
            WaitStatus::Running => if past_deadline {
                WaitStep::KillAndFail
            } else {
                WaitStep::Sleep(interval_ms)
            },
            WaitStatus::Failed => WaitStep::Done(false),
        },
{
    match status {
        WaitStatus::Exited { success } => WaitStep::Done(*success),
        WaitStatus::Running => {
            if past_deadline {
                WaitStep::KillAndFail
            } else {
                WaitStep::Sleep(interval_ms)
            }
        },
        WaitStatus::Failed => WaitStep::Done(false),
    }
}

/// The result of a command whose output is captured: its trimmed standard
/// output when it succeeded and the output could be read as text, else
/// nothing.
pub fn command_output(succeeded: bool, stdout: Option<&str>) -> (r: Option<String>)
    ensures
        succeeded && stdout is Some ==> (r matches Some(t) && t@ == trim(stdout->0@)),
        !(succeeded && stdout is Some) ==> r is None,
{
    if !succeeded {
        return None;
    }
    match stdout {
        Some(s) => Some(string_of(&trimmed(&chars_of(s)))),
        None => None,
    }
}

} // verus!

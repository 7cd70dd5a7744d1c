//! The states that the local shell page shows, and the tray menu.
use vstd::prelude::*;
use vstd::string::*;

use crate::text::same_text;

verus! {

/// The URL of the dsh web service UI.
pub const SERVICE_URL: &'static str = "http://127.0.0.1:3080/";

/// The phase that the shell page shows.
#[derive(Clone, Copy, Debug, PartialEq, Eq, Structural)]
pub enum Phase {
    Loading,
    Setup,
    Error,
    Ready,
    Stopped,
}

/// The cause of an error page.
#[derive(Clone, Copy, Debug, PartialEq, Eq, Structural)]
pub enum ErrorCode {
    PortOccupied,
    SpawnFailed,
    StartupTimeout,
    InstallFailed,
    UpgradeFailed,
}

pub open spec fn phase_name(p: Phase) -> Seq<char> {
    match p {
        Phase::Loading => "loading"@,
        Phase::Setup => "setup"@,
        Phase::Error => "error"@,
        Phase::Ready => "ready"@,
        Phase::Stopped => "stopped"@,
    }
}

pub open spec fn error_code_name(c: ErrorCode) -> Seq<char> {
    match c {
        ErrorCode::PortOccupied => "port-occupied"@,
        ErrorCode::SpawnFailed => "spawn-failed"@,
        ErrorCode::StartupTimeout => "startup-timeout"@,
        ErrorCode::InstallFailed => "install-failed"@,
        ErrorCode::UpgradeFailed => "upgrade-failed"@,
    }
}

impl Phase {
    /// The name under which the shell page knows this phase.
    pub fn name(&self) -> (r: &'static str)
        ensures
            r@ == phase_name(*self),
    {
        match self {
            Phase::Loading => "loading",
            Phase::Setup => "setup",
            Phase::Error => "error",
            Phase::Ready => "ready",
            Phase::Stopped => "stopped",
        }
    }
}

impl ErrorCode {
    /// The name under which the shell page knows this error.
    pub fn name(&self) -> (r: &'static str)
        ensures
            r@ == error_code_name(*self),
    {
        match self {
            ErrorCode::PortOccupied => "port-occupied",
            ErrorCode::SpawnFailed => "spawn-failed",
            ErrorCode::StartupTimeout => "startup-timeout",
            ErrorCode::InstallFailed => "install-failed",
            ErrorCode::UpgradeFailed => "upgrade-failed",
        }
    }
}

/// A state pushed to the shell page.
pub struct ShellStatus {
    pub phase: Phase,
    pub code: Option<ErrorCode>,
    pub message: Option<String>,
}

/// A shell state as values.
pub struct StatusView {
    pub phase: Phase,
    pub code: Option<ErrorCode>,
    pub message: Option<Seq<char>>,
}

impl View for ShellStatus {
    type V = StatusView;

    open spec fn view(&self) -> StatusView {
        StatusView {
            phase: self.phase,
            code: self.code,
            message: match self.message {
                Some(m) => Some(m@),
                None => None,
            },
        }
    }
}

pub open spec fn status_of(phase: Phase, code: Option<ErrorCode>, message: Option<Seq<char>>) -> StatusView {
    StatusView { phase, code, message }
}

fn status(phase: Phase, code: Option<ErrorCode>, message: Option<&str>) -> (r: ShellStatus)
    ensures
        r@ == status_of(
            phase,
            code,
            match message {
                Some(m) => Some(m@),
                None => None,
            },
        ),
{
    let message = match message {
        Some(m) => Some(String::from_str(m)),
        None => None,
    };
    ShellStatus { phase, code, message }
}

pub open spec fn starting_message() -> Seq<char> {
    "正在启动 dsh 服务…"@
}

pub open spec fn port_occupied_message() -> Seq<char> {
    "3080 端口已被占用。请先关闭占用该端口的程序，然后重试。"@
}

pub open spec fn spawn_failed_message(reason: Seq<char>) -> Seq<char> {
    "无法启动 dsh："@ + reason
}

pub open spec fn timeout_message() -> Seq<char> {
    "dsh 在 30 秒内未能就绪，请重试。"@
}

pub open spec fn installing_message() -> Seq<char> {
    "正在安装 dsh，可能需要几分钟…"@
}

pub open spec fn install_failed_message() -> Seq<char> {
    "dsh 安装失败，请检查网络后重试。"@
}

/// Loading, while the service starts.
pub fn starting() -> (r: ShellStatus)
    ensures
        r@ == status_of(Phase::Loading, None, Some(starting_message())),
{
    status(Phase::Loading, None, Some("正在启动 dsh 服务…"))
}

/// The setup page: dsh is not installed.
pub fn setup() -> (r: ShellStatus)
    ensures
        r@ == status_of(Phase::Setup, None, None),
{
    status(Phase::Setup, None, None)
}

/// The error page for an occupied service port.
pub fn port_occupied() -> (r: ShellStatus)
    ensures
        r@ == status_of(Phase::Error, Some(ErrorCode::PortOccupied), Some(port_occupied_message())),
{
    status(
        Phase::Error,
        Some(ErrorCode::PortOccupied),
        Some("3080 端口已被占用。请先关闭占用该端口的程序，然后重试。"),
    )
}

/// The error page for a service that could not be spawned, with the reason.
pub fn spawn_failed(reason: &str) -> (r: ShellStatus)
    ensures
        r@ == status_of(Phase::Error, Some(ErrorCode::SpawnFailed), Some(spawn_failed_message(reason@))),
{
    let mut m = String::from_str("无法启动 dsh：");
    m.append(reason);
    ShellStatus { phase: Phase::Error, code: Some(ErrorCode::SpawnFailed), message: Some(m) }
}

/// The error page for a service that did not become ready in time.
pub fn startup_timeout() -> (r: ShellStatus)
    ensures
        r@ == status_of(Phase::Error, Some(ErrorCode::StartupTimeout), Some(timeout_message())),
{
    status(Phase::Error, Some(ErrorCode::StartupTimeout), Some("dsh 在 30 秒内未能就绪，请重试。"))
}

/// The service is ready.
pub fn ready() -> (r: ShellStatus)
    ensures
        r@ == status_of(Phase::Ready, None, None),
{
    status(Phase::Ready, None, None)
}

/// The service stopped unexpectedly.
pub fn stopped() -> (r: ShellStatus)
    ensures
        r@ == status_of(Phase::Stopped, None, None),
{
    status(Phase::Stopped, None, None)
}

/// Loading, while dsh is being installed.
pub fn installing() -> (r: ShellStatus)
    ensures
        r@ == status_of(Phase::Loading, None, Some(installing_message())),
{
    status(Phase::Loading, None, Some("正在安装 dsh，可能需要几分钟…"))
}

/// What follows the installation of dsh: nothing to show when it succeeded
/// (the startup sequence runs next), else the install-failed error page.
pub fn install_finished(ok: bool) -> (r: Option<ShellStatus>)
    ensures
        ok ==> r is None,
        !ok ==> (r matches Some(s) && s@ == status_of(
            Phase::Error,
            Some(ErrorCode::InstallFailed),
            Some(install_failed_message()),
        )),
{
    if ok {
        None
    } else {
        Some(
            status(
                Phase::Error,
                Some(ErrorCode::InstallFailed),
                Some("dsh 安装失败，请检查网络后重试。"),
            ),
        )
    }
}

/// An entry of the tray menu.
#[derive(Clone, Copy, Debug, PartialEq, Eq, Structural)]
pub enum TrayCommand {
    /// Show the main window.
    Show,
    /// Check for a newer dsh, reporting the outcome.
    CheckUpdate,
    /// Forget the remembered close action.
    ResetClose,
    /// Exit the application.
    Quit,
}

pub open spec fn tray_command_of(id: Seq<char>) -> Option<TrayCommand> {
    if id == "show"@ {
        Some(TrayCommand::Show)
    } else if id == "check-update"@ {
        Some(TrayCommand::CheckUpdate)
    } else if id == "reset-close"@ {
        Some(TrayCommand::ResetClose)
    } else if id == "quit"@ {
        Some(TrayCommand::Quit)
    } else {
        None
    }
}

impl TrayCommand {
    /// The menu item id of this command.
    pub fn id(&self) -> (r: &'static str)
        ensures
            tray_command_of(r@) == Some(*self),
    {
        proof {
            reveal_strlit("show");
            reveal_strlit("check-update");
            reveal_strlit("reset-close");
            reveal_strlit("quit");
            assert("show"@[0] != "check-update"@[0]);
            assert("show"@[0] != "reset-close"@[0]);
            assert("show"@[0] != "quit"@[0]);
            assert("check-update"@[0] != "reset-close"@[0]);
            assert("check-update"@[0] != "quit"@[0]);
            assert("reset-close"@[0] != "quit"@[0]);
        }
        match self {
            TrayCommand::Show => "show",
            TrayCommand::CheckUpdate => "check-update",
            TrayCommand::ResetClose => "reset-close",
            TrayCommand::Quit => "quit",
        }
    }

    /// The command of the menu item with id `id`, if any.
    pub fn from_id(id: &str) -> (r: Option<TrayCommand>)
        ensures
            r == tray_command_of(id@),
    {
        if same_text(id, "show") {
            Some(TrayCommand::Show)
        } else if same_text(id, "check-update") {
            Some(TrayCommand::CheckUpdate)
        } else if same_text(id, "reset-close") {
            Some(TrayCommand::ResetClose)
        } else if same_text(id, "quit") {
            Some(TrayCommand::Quit)
        } else {
            None
        }
    }
}

/// The message shown after the close action was reset from the tray.
pub fn reset_close_notice() -> (r: String)
    ensures
        r@ == "已重置：下次关闭窗口时将再次询问。"@,
{
    String::from_str("已重置：下次关闭窗口时将再次询问。")
}

} // verus!

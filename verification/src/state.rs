//! The application's shared state and the decisions taken on it: tracking
//! the service process, exiting, upgrading, and closing the main window.
use vstd::prelude::*;

use crate::prefs::{close_action_chosen, CloseAction, Prefs};

verus! {

/// Shared application state.
pub struct AppState {
    /// PID of the spawned dsh service process tree (the cmd.exe wrapper).
    pub pid: Option<u32>,
    /// The authenticated dsh web URL (carries ?token=) parsed from stdout.
    pub web_url: Option<String>,
    /// True once the user chose to exit; suppresses crash UI during shutdown.
    pub shutting_down: bool,
    /// True while an upgrade is in flight; suppresses crash UI during restarts.
    pub upgrading: bool,
    /// Persisted user preferences (close behavior).
    pub prefs: Prefs,
}

/// What the application does with a request to close the main window.
#[derive(Clone, Copy, Debug, PartialEq, Eq, Structural)]
pub enum CloseResponse {
    /// Let the window close (the application is already exiting).
    Allow,
    /// Keep the window and show the close page, which asks what to do.
    AskUser,
    /// Keep the application running and hide the window in the tray.
    HideWindow,
    /// Exit the application.
    ExitApp,
}

/// How the application comes to exit.
#[derive(Clone, Copy, Debug, PartialEq, Eq, Structural)]
pub enum ExitPath {
    /// `Quit` in the tray menu.
    TrayQuit,
    /// Closing the main window with `Exit` remembered.
    CloseWithExit,
    /// Choosing `exit` on the close page.
    ChosenExit,
    /// The exit button of the shell page.
    ExitCommand,
    /// The runtime is about to exit for any other reason.
    ExitRequested,
}

/// What to do when the watched service process exits.
#[derive(Clone, Copy, Debug, PartialEq, Eq, Structural)]
pub enum ServiceExitResponse {
    /// Nothing: the exit was expected (the application exits or upgrades).
    Quiet,
    /// Restore the main window (unminimize, show, focus), push the stopped
    /// state and show the shell's stopped page.
    RestoreAndShowStopped,
}

/// What to do once a close action has been decided on.
pub open spec fn response_to(a: CloseAction) -> CloseResponse {
    match a {
        CloseAction::Ask => CloseResponse::AskUser,
        CloseAction::Tray => CloseResponse::HideWindow,
        CloseAction::Exit => CloseResponse::ExitApp,
    }
}

impl AppState {
    /// The state with no service process recorded.
    pub open spec fn without_service(self) -> AppState {
        AppState { pid: None, ..self }
    }

    /// The state after the user chose to exit.
    pub open spec fn exiting(self) -> AppState {
        AppState { pid: None, shutting_down: true, ..self }
    }

    /// The state that tracks service process `pid`.
    pub open spec fn with_service(self, pid: u32) -> AppState {
        AppState { pid: Some(pid), ..self }
    }

    /// The state after service process `pid` was seen to exit: the recorded
    /// pid is forgotten only if it is still `pid` (a restart may already
    /// have replaced it).
    pub open spec fn after_exit_of(self, pid: u32) -> AppState {
        if self.pid == Some(pid) {
            AppState { pid: None, ..self }
        } else {
            self
        }
    }

    /// Whether the exit of the service should bring up the stopped page:
    /// not while exiting or upgrading.
    pub open spec fn exit_is_unexpected(self) -> bool {
        !self.shutting_down && !self.upgrading
    }

    /// The state after exiting by `path`: the service is forgotten (its
    /// tree is killed by the caller), and every path but the runtime's own
    /// exit request marks the application as exiting.
    pub open spec fn after_exit_path(self, path: ExitPath) -> AppState {
        if path == ExitPath::ExitRequested {
            self.without_service()
        } else {
            self.exiting()
        }
    }

    /// The response to an exit of the service process.
    pub open spec fn exit_response(self) -> ServiceExitResponse {
        if self.exit_is_unexpected() {
            ServiceExitResponse::RestoreAndShowStopped
        } else {
            ServiceExitResponse::Quiet
        }
    }

    /// The state with the upgrading flag set to `on`.
    pub open spec fn upgrading_set(self, on: bool) -> AppState {
        AppState { upgrading: on, ..self }
    }

    /// The state with close action `a` remembered.
    pub open spec fn remembering(self, a: CloseAction) -> AppState {
        AppState { prefs: Prefs { close_action: a }, ..self }
    }

    /// The state after a choice on the close page: the chosen action is
    /// remembered only when the user asked for that.
    pub open spec fn after_choice(self, choice: Seq<char>, remember: bool) -> AppState {
        if remember {
            self.remembering(close_action_chosen(choice))
        } else {
            self
        }
    }

    /// The response to a request to close the main window.
    pub open spec fn close_response(self) -> CloseResponse {
        if self.shutting_down {
            CloseResponse::Allow
        } else {
            response_to(self.prefs.close_action)
        }
    }

    /// Forgets the service process and returns its pid, so that the caller
    /// can kill its tree; `None` when no service is tracked. Calling it
    /// again returns `None`, so every exit path may call it.
    pub fn take_service(&mut self) -> (r: Option<u32>)
        ensures
            r == old(self).pid,
            *final(self) == old(self).without_service(),
    {
        self.pid.take()
    }

    /// Exits by `path`: hands back the pid of the service, whose process tree
    /// the caller kills before the application ends.
    pub fn exit_via(&mut self, path: ExitPath) -> (r: Option<u32>)
        ensures
            r == old(self).pid,
            *final(self) == old(self).after_exit_path(path),
    {
        if path != ExitPath::ExitRequested {
            self.shutting_down = true;
        }
        self.pid.take()
    }

    /// Records the pid of a service process that became ready.
    pub fn record_service(&mut self, pid: u32)
        ensures
            *final(self) == old(self).with_service(pid),
    {
        self.pid = Some(pid);
    }

    /// Handles the exit of service process `pid`: an unexpected exit brings
    /// the window back (also from the tray) with the stopped page.
    pub fn service_exited(&mut self, pid: u32) -> (r: ServiceExitResponse)
        ensures
            *final(self) == old(self).after_exit_of(pid),
            r == old(self).exit_response(),
    {
        if self.pid == Some(pid) {
            self.pid = None;
        }
        if !self.shutting_down && !self.upgrading {
            ServiceExitResponse::RestoreAndShowStopped
        } else {
            ServiceExitResponse::Quiet
        }
    }

    /// Sets or clears the upgrading flag.
    pub fn set_upgrading(&mut self, on: bool)
        ensures
            *final(self) == old(self).upgrading_set(on),
            final(self).upgrading == on,
            final(self).pid == old(self).pid,
            final(self).shutting_down == old(self).shutting_down,
            final(self).prefs == old(self).prefs,
    {
        self.upgrading = on;
    }

    /// Applies the user's choice on the close page (`exit`, `tray`, or
    /// anything else for asking again) and returns the chosen action. With
    /// `remember`, the action becomes the stored preference, which the caller
    /// then saves.
    pub fn choose_close(&mut self, choice: &str, remember: bool) -> (r: CloseAction)
        ensures
            r == close_action_chosen(choice@),
            *final(self) == old(self).after_choice(choice@, remember),
            remember ==> final(self).prefs.close_action == r,
            !remember ==> final(self).prefs == old(self).prefs,
            final(self).pid == old(self).pid,
            final(self).shutting_down == old(self).shutting_down,
            final(self).upgrading == old(self).upgrading,
    {
        let act = CloseAction::from_choice(choice);
        if remember {
            self.prefs = Prefs { close_action: act };
        }
        act
    }

    /// Forgets the remembered close action, so that closing asks again.
    pub fn reset_close(&mut self)
        ensures
            *final(self) == old(self).remembering(CloseAction::Ask),
    {
        self.prefs = Prefs { close_action: CloseAction::Ask };
    }

    /// How to answer a request to close the main window.
    pub fn close_requested(&self) -> (r: CloseResponse)
        ensures
            r == self.close_response(),
            self.shutting_down ==> r == CloseResponse::Allow,
            !self.shutting_down && self.prefs.close_action == CloseAction::Ask ==> r
                == CloseResponse::AskUser,
            !self.shutting_down && self.prefs.close_action == CloseAction::Tray ==> r
                == CloseResponse::HideWindow,
            !self.shutting_down && self.prefs.close_action == CloseAction::Exit ==> r
                == CloseResponse::ExitApp,
    {
        if self.shutting_down {
            return CloseResponse::Allow;
        }
        match self.prefs.close_action {
            CloseAction::Ask => CloseResponse::AskUser,
            CloseAction::Tray => CloseResponse::HideWindow,
            CloseAction::Exit => CloseResponse::ExitApp,
        }
    }
}

impl Default for AppState {
    fn default() -> (r: AppState)
        ensures
            r.pid is None,
            r.web_url is None,
            !r.shutting_down,
            !r.upgrading,
            r.prefs.close_action == CloseAction::Ask,
    {
        AppState {
            pid: None,
            web_url: None,
            shutting_down: false,
            upgrading: false,
            prefs: Prefs::default(),
        }
    }
}

// ---------------------------------------------------------------------------
// Laws
// ---------------------------------------------------------------------------
/// Shutting the service down is idempotent: after one shutdown no pid is
/// tracked, so a second one kills nothing and changes nothing.
pub proof fn law_shutdown_idempotent(s: AppState)
    ensures
        s.without_service().pid is None,
        s.without_service().without_service() == s.without_service(),
        s.exiting().pid is None,
        s.exiting().exiting() == s.exiting(),
{
}

/// Setting the upgrading flag sets it to exactly the value given, whatever
/// else the state holds, and touches nothing else.
pub proof fn law_upgrading_flag(s: AppState, on: bool)
    ensures
        s.upgrading_set(on).upgrading == on,
        s.upgrading_set(on).pid == s.pid,
        s.upgrading_set(on).shutting_down == s.shutting_down,
        s.upgrading_set(on).prefs == s.prefs,
        s.upgrading_set(on).web_url == s.web_url,
{
}

/// Once the upgrade clears its flag, an unexpected exit of the (new)
/// service brings the window back with the stopped page again, whether or
/// not a service is tracked.
pub proof fn law_after_upgrade_exits_are_noticed(s: AppState, pid: u32)
    requires
        !s.shutting_down,
    ensures
        s.upgrading_set(false).exit_response() == ServiceExitResponse::RestoreAndShowStopped,
        s.upgrading_set(false).after_exit_of(pid).exit_response()
            == ServiceExitResponse::RestoreAndShowStopped,
{
}

/// Closing the window follows the stored preference by its meaning: ask on
/// `Ask`, hide to the tray on `Tray`, exit on `Exit`.
pub proof fn law_close_follows_preference(s: AppState)
    requires
        !s.shutting_down,
    ensures
        s.prefs.close_action == CloseAction::Ask ==> s.close_response() == CloseResponse::AskUser,
        s.prefs.close_action == CloseAction::Tray ==> s.close_response()
            == CloseResponse::HideWindow,
        s.prefs.close_action == CloseAction::Exit ==> s.close_response() == CloseResponse::ExitApp,
{
}

/// Remembering a close action stores that very action, and closing then
/// does what that action means; choosing `tray` or `exit` with "remember"
/// stores `Tray` or `Exit`.
pub proof fn law_remember_stores_the_choice(s: AppState, a: CloseAction)
    requires
        !s.shutting_down,
    ensures
        s.remembering(a).prefs.close_action == a,
        s.remembering(a).pid == s.pid,
        s.remembering(CloseAction::Tray).close_response() == CloseResponse::HideWindow,
        s.remembering(CloseAction::Exit).close_response() == CloseResponse::ExitApp,
        s.after_choice("tray"@, true).prefs.close_action == CloseAction::Tray,
        s.after_choice("exit"@, true).prefs.close_action == CloseAction::Exit,
        s.after_choice("tray"@, true).close_response() == CloseResponse::HideWindow,
        s.after_choice("exit"@, true).close_response() == CloseResponse::ExitApp,
{
    reveal_strlit("tray");
    reveal_strlit("exit");
    assert("tray"@[0] != "exit"@[0]);
}

/// Without a remembered choice, closing the window asks the user.
pub proof fn law_close_without_choice_asks(s: AppState)
    requires
        !s.shutting_down,
        s.prefs.close_action == CloseAction::Ask,
    ensures
        s.close_response() == CloseResponse::AskUser,
{
}

/// A choice made with "remember" is applied by the next close without
/// asking.
pub proof fn law_remembered_choice_applies(s: AppState, choice: Seq<char>)
    requires
        !s.shutting_down,
    ensures
        s.after_choice(choice, true).close_response() == response_to(close_action_chosen(choice)),
        close_action_chosen(choice) != CloseAction::Ask ==> s.after_choice(
            choice,
            true,
        ).close_response() != CloseResponse::AskUser,
{
}

/// A choice made without "remember" leaves the next close as it was.
pub proof fn law_unremembered_choice_forgotten(s: AppState, choice: Seq<char>)
    ensures
        s.after_choice(choice, false).close_response() == s.close_response(),
{
}

/// Remembering a choice and then resetting it from the tray makes the next
/// close ask again.
pub proof fn law_reset_close_asks_again(s: AppState, choice: Seq<char>)
    requires
        !s.shutting_down,
    ensures
        s.after_choice(choice, true).remembering(CloseAction::Ask).close_response()
            == CloseResponse::AskUser,
{
}

/// Every way out of the application hands the pid of the running service to
/// the kill of its tree and forgets it, so that a later exit path has
/// nothing left to kill.
pub proof fn law_every_exit_kills_service(s: AppState, path: ExitPath, later: ExitPath)
    ensures
        s.after_exit_path(path).pid is None,
        s.after_exit_path(path).after_exit_path(later).pid is None,
        path != ExitPath::ExitRequested ==> s.after_exit_path(path).shutting_down,
{
}

/// Once the user exits, closing the window is let through and the exit of
/// the service never brings up the stopped page.
pub proof fn law_exit_is_quiet(s: AppState, path: ExitPath, pid: u32)
    requires
        path != ExitPath::ExitRequested,
    ensures
        s.after_exit_path(path).close_response() == CloseResponse::Allow,
        s.after_exit_path(path).exit_response() == ServiceExitResponse::Quiet,
        s.after_exit_path(path).after_exit_of(pid).exit_response() == ServiceExitResponse::Quiet,
{
}

/// While an upgrade runs, the exit of the old service does not bring up the
/// stopped page.
pub proof fn law_upgrade_is_quiet(s: AppState)
    ensures
        s.upgrading_set(true).exit_response() == ServiceExitResponse::Quiet,
{
}

/// An unexpected exit of the service (neither exiting nor upgrading) brings
/// the main window back, even from the tray, with the stopped page.
pub proof fn law_unexpected_exit_restores_window(s: AppState)
    requires
        !s.shutting_down,
        !s.upgrading,
    ensures
        s.exit_response() == ServiceExitResponse::RestoreAndShowStopped,
{
}

/// The exit of an old service process does not forget a newer one that a
/// restart has recorded since.
pub proof fn law_stale_exit_keeps_new_service(s: AppState, old_pid: u32, new_pid: u32)
    requires
        old_pid != new_pid,
    ensures
        s.with_service(new_pid).after_exit_of(old_pid).pid == Some(new_pid),
        s.with_service(old_pid).after_exit_of(old_pid).pid is None,
{
}

} // verus!

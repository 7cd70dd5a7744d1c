use dsh_desktop::prefs::CloseAction;
use dsh_desktop::state::{AppState, CloseResponse, ExitPath, ServiceExitResponse};

const SHOW: ServiceExitResponse = ServiceExitResponse::RestoreAndShowStopped;
const QUIET: ServiceExitResponse = ServiceExitResponse::Quiet;

#[test]
fn default_state_is_idle() {
    let s = AppState::default();
    assert_eq!(s.pid, None);
    assert!(s.web_url.is_none());
    assert!(!s.shutting_down);
    assert!(!s.upgrading);
    assert_eq!(s.prefs.close_action, CloseAction::Ask);
}

#[test]
fn shutdown_is_idempotent() {
    let mut s = AppState::default();
    s.record_service(4242);
    assert_eq!(s.take_service(), Some(4242));
    assert_eq!(s.take_service(), None);
}

#[test]
fn exit_takes_the_service_and_stays_quiet() {
    let mut s = AppState::default();
    s.record_service(7);
    assert_eq!(s.exit_via(ExitPath::TrayQuit), Some(7));
    assert!(s.shutting_down);
    assert_eq!(s.close_requested(), CloseResponse::Allow);
    assert_eq!(s.service_exited(7), QUIET);
}

#[test]
fn every_exit_path_hands_over_the_service_once() {
    for path in [
        ExitPath::TrayQuit,
        ExitPath::CloseWithExit,
        ExitPath::ChosenExit,
        ExitPath::ExitCommand,
        ExitPath::ExitRequested,
    ] {
        let mut s = AppState::default();
        s.record_service(12);
        assert_eq!(s.exit_via(path), Some(12));
        assert_eq!(s.pid, None);
        assert_eq!(s.shutting_down, path != ExitPath::ExitRequested);
        assert_eq!(s.exit_via(ExitPath::ExitRequested), None);
    }
}

#[test]
fn watchdog_keeps_a_newer_service() {
    let mut s = AppState::default();
    s.record_service(1);
    s.record_service(2);
    assert_eq!(s.service_exited(1), SHOW);
    assert_eq!(s.pid, Some(2));
    assert_eq!(s.service_exited(2), SHOW);
    assert_eq!(s.pid, None);
}

#[test]
fn upgrade_suppresses_stopped_page() {
    let mut s = AppState::default();
    s.record_service(3);
    s.set_upgrading(true);
    assert_eq!(s.service_exited(3), QUIET);
    s.set_upgrading(false);
    s.record_service(4);
    assert_eq!(s.service_exited(4), SHOW);
}

#[test]
fn close_without_remembered_choice_asks() {
    let s = AppState::default();
    assert_eq!(s.close_requested(), CloseResponse::AskUser);
}

#[test]
fn remembered_choice_is_applied_and_reset_asks_again() {
    let mut s = AppState::default();
    assert_eq!(s.choose_close("tray", true), CloseAction::Tray);
    assert_eq!(s.close_requested(), CloseResponse::HideWindow);
    assert_eq!(s.choose_close("exit", true), CloseAction::Exit);
    assert_eq!(s.close_requested(), CloseResponse::ExitApp);
    s.reset_close();
    assert_eq!(s.close_requested(), CloseResponse::AskUser);
}

#[test]
fn unremembered_choice_is_not_stored() {
    let mut s = AppState::default();
    assert_eq!(s.choose_close("exit", false), CloseAction::Exit);
    assert_eq!(s.prefs.close_action, CloseAction::Ask);
    assert_eq!(s.choose_close("whatever", true), CloseAction::Ask);
    assert_eq!(s.close_requested(), CloseResponse::AskUser);
}

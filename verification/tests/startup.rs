use dsh_desktop::shell::{ErrorCode, Phase};
use dsh_desktop::startup::{Startup, StartupAction, StartupEvent, StartupStage};
use dsh_desktop::StartKind;

fn phase_of(step: &dsh_desktop::startup::StartupStep) -> Option<(Phase, Option<ErrorCode>)> {
    step.notice.as_ref().map(|n| (n.phase, n.code))
}

#[test]
fn normal_startup_hands_over_once_ready() {
    let mut s = Startup::new(StartKind::Boot);
    let st = s.step(StartupEvent::Started);
    assert_eq!(st.action, StartupAction::CheckInstalled);
    assert_eq!(phase_of(&st), Some((Phase::Loading, None)));
    assert_eq!(s.step(StartupEvent::Installed(true)).action, StartupAction::CheckPort);
    assert_eq!(s.step(StartupEvent::PortChecked { busy: false }).action, StartupAction::Spawn);
    assert_eq!(s.step(StartupEvent::Spawned(Ok(77))).action, StartupAction::StartDeadline(30));
    assert_eq!(s.step(StartupEvent::Clock { before_deadline: true }).action, StartupAction::Probe);
    assert_eq!(s.step(StartupEvent::Probed { open: false }).action, StartupAction::Sleep(300));
    assert_eq!(s.stage, StartupStage::Sleeping(77));
    assert_eq!(s.step(StartupEvent::Slept).action, StartupAction::ReadClock);
    assert_eq!(s.step(StartupEvent::Clock { before_deadline: true }).action, StartupAction::Probe);
    let st = s.step(StartupEvent::Probed { open: true });
    assert_eq!(st.action, StartupAction::RecordService(77));
    assert!(st.notice.is_none());
    assert_eq!(s.stage, StartupStage::HandingOver(77));
    let st = s.step(StartupEvent::Recorded);
    assert_eq!(st.action, StartupAction::ShowService);
    assert_eq!(phase_of(&st), Some((Phase::Ready, None)));
    assert_eq!(s.stage, StartupStage::Finished);
    assert_eq!(s.step(StartupEvent::Recorded).action, StartupAction::Stop);
}

#[test]
fn missing_dsh_shows_setup() {
    let mut s = Startup::new(StartKind::Retry);
    s.step(StartupEvent::Started);
    let st = s.step(StartupEvent::Installed(false));
    assert_eq!(st.action, StartupAction::Stop);
    assert_eq!(phase_of(&st), Some((Phase::Setup, None)));
}

#[test]
fn busy_port_is_reported_without_spawning() {
    let mut s = Startup::new(StartKind::Boot);
    s.step(StartupEvent::Started);
    s.step(StartupEvent::Installed(true));
    let st = s.step(StartupEvent::PortChecked { busy: true });
    assert_eq!(st.action, StartupAction::Stop);
    assert_eq!(phase_of(&st), Some((Phase::Error, Some(ErrorCode::PortOccupied))));
}

#[test]
fn spawn_failure_is_reported_with_reason() {
    let mut s = Startup::new(StartKind::Boot);
    s.step(StartupEvent::Started);
    s.step(StartupEvent::Installed(true));
    s.step(StartupEvent::PortChecked { busy: false });
    let st = s.step(StartupEvent::Spawned(Err("access denied".to_string())));
    assert_eq!(st.action, StartupAction::Stop);
    let n = st.notice.unwrap();
    assert_eq!(n.code, Some(ErrorCode::SpawnFailed));
    assert_eq!(n.message.as_deref(), Some("无法启动 dsh：access denied"));
}

#[test]
fn timeout_kills_then_reports() {
    let mut s = Startup::new(StartKind::Upgrade);
    s.step(StartupEvent::Started);
    s.step(StartupEvent::Installed(true));
    s.step(StartupEvent::PortChecked { busy: false });
    s.step(StartupEvent::Spawned(Ok(5)));
    let st = s.step(StartupEvent::Clock { before_deadline: false });
    assert_eq!(st.action, StartupAction::KillService);
    assert!(st.notice.is_none());
    let st = s.step(StartupEvent::Killed);
    assert_eq!(st.action, StartupAction::Stop);
    assert_eq!(phase_of(&st), Some((Phase::Error, Some(ErrorCode::StartupTimeout))));
}

#[test]
fn out_of_order_events_stop_the_sequence() {
    let mut s = Startup::new(StartKind::Boot);
    let st = s.step(StartupEvent::Slept);
    assert_eq!(st.action, StartupAction::Stop);
    assert!(st.notice.is_none());
    assert_eq!(s.stage, StartupStage::Finished);
    assert_eq!(s.step(StartupEvent::Started).action, StartupAction::Stop);
}

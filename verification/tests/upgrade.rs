use dsh_desktop::encode::error_hash;
use dsh_desktop::shell::Phase;
use dsh_desktop::state::AppState;
use dsh_desktop::update::{
    UpdateAction, UpdateCheck, UpdateEvent, Upgrade, UpgradeAction, UpgradeEvent, UpgradeStage,
};

fn s(x: &str) -> String {
    x.to_string()
}

#[test]
fn newer_version_is_offered_and_accepted() {
    let mut c = UpdateCheck::new(false);
    assert!(matches!(c.step(UpdateEvent::Started), UpdateAction::QueryInstalled));
    assert!(matches!(c.step(UpdateEvent::InstalledVersion(Some(s("0.1.0-rc.7")))), UpdateAction::QueryLatest));
    match c.step(UpdateEvent::LatestVersion(Some(s("0.1.0-rc.8")))) {
        UpdateAction::OfferUpgrade(m) => assert_eq!(
            m,
            "发现新版本：0.1.0-rc.7 → 0.1.0-rc.8\n\n升级将重启 dsh 服务，进行中的会话会中断。"
        ),
        _ => panic!("expected an offer"),
    }
    match c.step(UpdateEvent::Answered(true)) {
        UpdateAction::Upgrade(t) => assert_eq!(t, "0.1.0-rc.8"),
        _ => panic!("expected an upgrade"),
    }
}

#[test]
fn declined_offer_stops() {
    let mut c = UpdateCheck::new(true);
    c.step(UpdateEvent::Started);
    c.step(UpdateEvent::InstalledVersion(Some(s("0.1.0-rc.8"))));
    c.step(UpdateEvent::LatestVersion(Some(s("0.1.0"))));
    assert!(matches!(c.step(UpdateEvent::Answered(false)), UpdateAction::Stop));
}

#[test]
fn automatic_check_is_silent_on_failure_and_when_current() {
    for (installed, latest) in [(None, None), (Some(s("0.1.0")), None), (Some(s("0.1.0")), Some(s("0.1.0"))), (Some(s("0.2.0")), Some(s("0.1.0")))] {
        let mut c = UpdateCheck::new(false);
        c.step(UpdateEvent::Started);
        let missing = installed.is_none();
        let a = c.step(UpdateEvent::InstalledVersion(installed));
        if missing {
            assert!(matches!(a, UpdateAction::Stop));
            continue;
        }
        assert!(matches!(c.step(UpdateEvent::LatestVersion(latest)), UpdateAction::Stop));
    }
}

#[test]
fn manual_check_reports_every_outcome() {
    let mut c = UpdateCheck::new(true);
    c.step(UpdateEvent::Started);
    match c.step(UpdateEvent::InstalledVersion(None)) {
        UpdateAction::Inform(m) => assert_eq!(m, "无法读取当前安装的 dsh 版本。"),
        _ => panic!(),
    }
    let mut c = UpdateCheck::new(true);
    c.step(UpdateEvent::Started);
    c.step(UpdateEvent::InstalledVersion(Some(s("0.1.0"))));
    match c.step(UpdateEvent::LatestVersion(None)) {
        UpdateAction::Inform(m) => assert_eq!(m, "检查失败：无法访问 npm registry，请检查网络。"),
        _ => panic!(),
    }
    let mut c = UpdateCheck::new(true);
    c.step(UpdateEvent::Started);
    c.step(UpdateEvent::InstalledVersion(Some(s("0.1.0"))));
    match c.step(UpdateEvent::LatestVersion(Some(s("0.1.0-rc.8")))) {
        UpdateAction::Inform(m) => assert_eq!(m, "已是最新版本（0.1.0）。"),
        _ => panic!(),
    }
}

#[test]
fn successful_upgrade_restarts_the_service() {
    let mut state = AppState::default();
    state.record_service(900);
    let mut u = Upgrade::new(s("0.1.0-rc.9"));
    match u.step(&mut state, UpgradeEvent::Started) {
        UpgradeAction::Install { notice, command } => {
            assert_eq!(notice.phase, Phase::Loading);
            assert_eq!(notice.message.as_deref(), Some("正在升级 dsh，请稍候…"));
            assert_eq!(command.args.last().unwrap(), "@deepseek-ai/dsh@0.1.0-rc.9");
        }
        _ => panic!(),
    }
    assert!(state.upgrading);
    match u.step(&mut state, UpgradeEvent::Installed(true)) {
        UpgradeAction::Restart(pid) => assert_eq!(pid, Some(900)),
        _ => panic!(),
    }
    assert_eq!(state.pid, None);
    assert!(state.upgrading);
    assert!(matches!(u.step(&mut state, UpgradeEvent::Restarted), UpgradeAction::Stop));
    assert!(!state.upgrading);
    assert_eq!(u.stage, UpgradeStage::Finished);
}

#[test]
fn failed_upgrade_shows_the_error_page() {
    let mut state = AppState::default();
    let mut u = Upgrade::new(s("9.9.9"));
    u.step(&mut state, UpgradeEvent::Started);
    match u.step(&mut state, UpgradeEvent::Installed(false)) {
        UpgradeAction::ShowError(h) => {
            assert_eq!(h, error_hash("upgrade-failed", "dsh 升级到 9.9.9 失败，请检查网络后重试。"));
        }
        _ => panic!(),
    }
    assert!(!state.upgrading);
}

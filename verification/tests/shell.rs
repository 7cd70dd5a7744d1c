use dsh_desktop::shell::{
    install_finished, installing, port_occupied, ready, reset_close_notice, setup, spawn_failed,
    starting, startup_timeout, stopped, ErrorCode, Phase, TrayCommand, SERVICE_URL,
};

#[test]
fn phase_and_code_names() {
    assert_eq!(Phase::Loading.name(), "loading");
    assert_eq!(Phase::Setup.name(), "setup");
    assert_eq!(Phase::Error.name(), "error");
    assert_eq!(Phase::Ready.name(), "ready");
    assert_eq!(Phase::Stopped.name(), "stopped");
    assert_eq!(ErrorCode::PortOccupied.name(), "port-occupied");
    assert_eq!(ErrorCode::SpawnFailed.name(), "spawn-failed");
    assert_eq!(ErrorCode::StartupTimeout.name(), "startup-timeout");
    assert_eq!(ErrorCode::InstallFailed.name(), "install-failed");
    assert_eq!(ErrorCode::UpgradeFailed.name(), "upgrade-failed");
}

#[test]
fn statuses() {
    let s = starting();
    assert_eq!(s.phase, Phase::Loading);
    assert_eq!(s.code, None);
    assert_eq!(s.message.as_deref(), Some("正在启动 dsh 服务…"));
    assert_eq!(setup().phase, Phase::Setup);
    assert!(setup().message.is_none());
    let p = port_occupied();
    assert_eq!(p.code, Some(ErrorCode::PortOccupied));
    assert_eq!(p.message.as_deref(), Some("3080 端口已被占用。请先关闭占用该端口的程序，然后重试。"));
    let f = spawn_failed("program not found");
    assert_eq!(f.phase, Phase::Error);
    assert_eq!(f.code, Some(ErrorCode::SpawnFailed));
    assert_eq!(f.message.as_deref(), Some("无法启动 dsh：program not found"));
    let t = startup_timeout();
    assert_eq!(t.code, Some(ErrorCode::StartupTimeout));
    assert_eq!(t.message.as_deref(), Some("dsh 在 30 秒内未能就绪，请重试。"));
    assert_eq!(ready().phase, Phase::Ready);
    assert_eq!(stopped().phase, Phase::Stopped);
    assert_eq!(installing().message.as_deref(), Some("正在安装 dsh，可能需要几分钟…"));
    assert_eq!(SERVICE_URL, "http://127.0.0.1:3080/");
}

#[test]
fn install_outcomes() {
    assert!(install_finished(true).is_none());
    let e = install_finished(false).unwrap();
    assert_eq!(e.phase, Phase::Error);
    assert_eq!(e.code, Some(ErrorCode::InstallFailed));
    assert_eq!(e.message.as_deref(), Some("dsh 安装失败，请检查网络后重试。"));
}

#[test]
fn tray_commands() {
    for c in [TrayCommand::Show, TrayCommand::CheckUpdate, TrayCommand::ResetClose, TrayCommand::Quit] {
        assert_eq!(TrayCommand::from_id(c.id()), Some(c));
    }
    assert_eq!(TrayCommand::from_id("check-update"), Some(TrayCommand::CheckUpdate));
    assert_eq!(TrayCommand::from_id("exit"), None);
    assert_eq!(reset_close_notice(), "已重置：下次关闭窗口时将再次询问。");
}

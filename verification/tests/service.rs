use dsh_desktop::service::{
    command_output, dsh_version, install_dsh_version, install_latest, installed_version,
    kill_tree_by_pid, registry_latest, spawn_dsh, spawn_dsh_on, via_cmd, wait_step, Invocation,
    WaitStatus, WaitStep, HOST, POLL_INTERVAL_MS, PORT, READY_TIMEOUT_SECS,
};

fn line(inv: &Invocation) -> Vec<String> {
    let mut v = vec![inv.program.clone()];
    v.extend(inv.args.iter().cloned());
    v
}

#[test]
fn service_constants() {
    assert_eq!(HOST, "127.0.0.1");
    assert_eq!(PORT, 3080);
    assert_eq!(READY_TIMEOUT_SECS, 30);
    assert_eq!(POLL_INTERVAL_MS, 300);
}

#[test]
fn version_queries() {
    let v = dsh_version();
    assert_eq!(line(&v), ["cmd", "/C", "dsh", "--version"]);
    assert_eq!(v.timeout_secs, Some(15));
    let i = installed_version();
    assert_eq!(line(&i), line(&v));
    let r = registry_latest();
    assert_eq!(line(&r), ["cmd", "/C", "npm", "view", "@deepseek-ai/dsh", "version"]);
    assert_eq!(r.timeout_secs, Some(30));
}

#[test]
fn install_commands() {
    let u = install_dsh_version("0.1.0-rc.9");
    assert_eq!(line(&u), ["cmd", "/C", "npm", "i", "-g", "@deepseek-ai/dsh@0.1.0-rc.9"]);
    assert_eq!(u.timeout_secs, Some(600));
    let l = install_latest();
    assert_eq!(line(&l), ["cmd", "/C", "npm", "i", "-g", "@deepseek-ai/dsh@latest"]);
}

#[test]
fn spawn_and_kill_commands() {
    let s = spawn_dsh_on(3099);
    assert_eq!(
        line(&s),
        ["cmd", "/C", "dsh", "web", "--host", "127.0.0.1", "--port", "3099", "--no-open"]
    );
    assert_eq!(s.timeout_secs, None);
    assert_eq!(
        line(&spawn_dsh()),
        ["cmd", "/C", "dsh", "web", "--host", "127.0.0.1", "--port", "3080", "--no-open"]
    );
    assert_eq!(line(&spawn_dsh_on(0))[7], "0");
    assert_eq!(line(&spawn_dsh_on(65535))[7], "65535");
    let k = kill_tree_by_pid(4294967295);
    assert_eq!(line(&k), ["taskkill", "/PID", "4294967295", "/T", "/F"]);
    assert_eq!(line(&kill_tree_by_pid(10)), ["taskkill", "/PID", "10", "/T", "/F"]);
}

#[test]
fn via_cmd_prefixes_the_shell() {
    let inv = via_cmd("ping", &vec!["-t", "127.0.0.1"], Some(5));
    assert_eq!(line(&inv), ["cmd", "/C", "ping", "-t", "127.0.0.1"]);
    assert_eq!(inv.timeout_secs, Some(5));
}

#[test]
fn waiting_decisions() {
    assert_eq!(wait_step(&WaitStatus::Exited { success: true }, true, 100), WaitStep::Done(true));
    assert_eq!(wait_step(&WaitStatus::Exited { success: false }, false, 100), WaitStep::Done(false));
    assert_eq!(wait_step(&WaitStatus::Running, false, 100), WaitStep::Sleep(100));
    assert_eq!(wait_step(&WaitStatus::Running, false, 200), WaitStep::Sleep(200));
    assert_eq!(wait_step(&WaitStatus::Running, true, 100), WaitStep::KillAndFail);
    assert_eq!(wait_step(&WaitStatus::Failed, false, 100), WaitStep::Done(false));
}

#[test]
fn command_output_is_trimmed_on_success_only() {
    assert_eq!(command_output(true, Some("  0.1.0-rc.8\r\n")), Some("0.1.0-rc.8".to_string()));
    assert_eq!(command_output(true, Some("\n")), Some(String::new()));
    assert_eq!(command_output(false, Some("0.1.0")), None);
    assert_eq!(command_output(true, None), None);
}

#[test]
fn output_trimming_matches_str_trim() {
    let spaces = [
        '\t', '\n', '\u{b}', '\u{c}', '\r', ' ', '\u{85}', '\u{a0}', '\u{1680}', '\u{2000}',
        '\u{2005}', '\u{200a}', '\u{2028}', '\u{2029}', '\u{202f}', '\u{205f}', '\u{3000}',
    ];
    for c in spaces {
        let s = format!("{c}0.1.0{c}{c}");
        assert_eq!(command_output(true, Some(&s)).unwrap(), s.trim());
    }
    for c in ['\u{200b}', '\u{feff}', 'x', '\u{180e}'] {
        let s = format!("{c}v{c}");
        assert_eq!(command_output(true, Some(&s)).unwrap(), s.trim());
    }
}

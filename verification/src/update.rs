//! Version management: the check against the npm registry and the
//! user-confirmed upgrade, as state machines that the application drives.
use std::cmp::Ordering;
use vstd::prelude::*;
use vstd::string::*;
use vstd::utf8::encode_utf8;

use crate::encode::{error_hash, error_hash_of};
use crate::service::{command_line, install_dsh_version, Invocation};
use crate::shell::{status_of, ErrorCode, Phase, ShellStatus};
use crate::state::AppState;
use crate::version::{compare, version_text_order};

verus! {

/// Where an update check stands.
pub enum UpdateStage {
    /// Not started yet.
    Begin,
    /// Waiting for the installed version.
    AwaitInstalled,
    /// Waiting for the registry's latest version; the installed one is known.
    AwaitLatest(String),
    /// Waiting for the user's answer to the upgrade offer for this version.
    AwaitAnswer(String),
    /// Nothing more to do.
    Finished,
}

/// What the application observed after an action of the update check.
pub enum UpdateEvent {
    Started,
    /// The installed version, if it could be read.
    InstalledVersion(Option<String>),
    /// The registry's latest version, if it could be read.
    LatestVersion(Option<String>),
    /// Whether the user accepted the upgrade.
    Answered(bool),
}

/// What the application is to do next in an update check.
pub enum UpdateAction {
    /// Read the installed version.
    QueryInstalled,
    /// Read the registry's latest version.
    QueryLatest,
    /// Tell the user this, then stop.
    Inform(String),
    /// Offer the upgrade with this message and report the answer.
    OfferUpgrade(String),
    /// Upgrade to this version.
    Upgrade(String),
    /// Stop.
    Stop,
}

/// An update check; `manual` when the user asked for it from the tray, in
/// which case every outcome is reported. An automatic check stays silent
/// unless a newer version exists.
pub struct UpdateCheck {
    pub manual: bool,
    pub stage: UpdateStage,
}

pub open spec fn unreadable_installed_message() -> Seq<char> {
    "无法读取当前安装的 dsh 版本。"@
}

pub open spec fn registry_unreachable_message() -> Seq<char> {
    "检查失败：无法访问 npm registry，请检查网络。"@
}

pub open spec fn up_to_date_message(installed: Seq<char>) -> Seq<char> {
    "已是最新版本（"@ + installed + "）。"@
}

pub open spec fn offer_message(installed: Seq<char>, latest: Seq<char>) -> Seq<char> {
    "发现新版本："@ + installed + " → "@ + latest + "\n\n升级将重启 dsh 服务，进行中的会话会中断。"@
}

impl UpdateCheck {
    /// A check that has not started yet.
    pub fn new(manual: bool) -> (r: UpdateCheck)
        ensures
            r.manual == manual,
            r.stage is Begin,
    {
        UpdateCheck { manual, stage: UpdateStage::Begin }
    }

    /// Takes the next step of the check on event `ev`.
    pub fn step(&mut self, ev: UpdateEvent) -> (r: UpdateAction)
        ensures
            final(self).manual == old(self).manual,
            match (old(self).stage, ev) {
                (UpdateStage::Begin, UpdateEvent::Started) => {
                    &&& r is QueryInstalled
                    &&& final(self).stage is AwaitInstalled
                },
                (UpdateStage::AwaitInstalled, UpdateEvent::InstalledVersion(None)) => {
                    &&& final(self).stage is Finished
                    &&& if old(self).manual {
                        r matches UpdateAction::Inform(m) && m@ == unreadable_installed_message()
                    } else {
                        r is Stop
                    }
                },
                (UpdateStage::AwaitInstalled, UpdateEvent::InstalledVersion(Some(v))) => {
                    &&& r is QueryLatest
                    &&& final(self).stage matches UpdateStage::AwaitLatest(i) && i@ == v@
                },
                (UpdateStage::AwaitLatest(installed), UpdateEvent::LatestVersion(None)) => {
                    &&& final(self).stage is Finished
                    &&& if old(self).manual {
                        r matches UpdateAction::Inform(m) && m@ == registry_unreachable_message()
                    } else {
                        r is Stop
                    }
                },
                (UpdateStage::AwaitLatest(installed), UpdateEvent::LatestVersion(Some(latest))) => {
                    if version_text_order(installed@, latest@) == Ordering::Less {
                        &&& r matches UpdateAction::OfferUpgrade(m) && m@ == offer_message(
                            installed@,
                            latest@,
                        )
                        &&& final(self).stage matches UpdateStage::AwaitAnswer(t) && t@ == latest@
                    } else {
                        &&& final(self).stage is Finished
                        &&& if old(self).manual {
                            r matches UpdateAction::Inform(m) && m@ == up_to_date_message(
                                installed@,
                            )
                        } else {
                            r is Stop
                        }
                    }
                },
                (UpdateStage::AwaitAnswer(target), UpdateEvent::Answered(yes)) => {
                    &&& final(self).stage is Finished
                    &&& if yes {
                        r matches UpdateAction::Upgrade(t) && t@ == target@
                    } else {
                        r is Stop
                    }
                },
                _ => {
                    &&& r is Stop
                    &&& final(self).stage is Finished
                },
            },
    {
        let mut stage = UpdateStage::Finished;
        std::mem::swap(&mut stage, &mut self.stage);
        match (stage, ev) {
            (UpdateStage::Begin, UpdateEvent::Started) => {
                self.stage = UpdateStage::AwaitInstalled;
                UpdateAction::QueryInstalled
            },
            (UpdateStage::AwaitInstalled, UpdateEvent::InstalledVersion(v)) => match v {
                Some(v) => {
                    self.stage = UpdateStage::AwaitLatest(v);
                    UpdateAction::QueryLatest
                },
                None => {
                    if self.manual {
                        UpdateAction::Inform(String::from_str("无法读取当前安装的 dsh 版本。"))
                    } else {
                        UpdateAction::Stop
                    }
                },
            },
            (UpdateStage::AwaitLatest(installed), UpdateEvent::LatestVersion(latest)) => {
                match latest {
                    None => {
                        if self.manual {
                            UpdateAction::Inform(
                                String::from_str("检查失败：无法访问 npm registry，请检查网络。"),
                            )
                        } else {
                            UpdateAction::Stop
                        }
                    },
                    Some(latest) => {
                        match compare(installed.as_str(), latest.as_str()) {
                            Ordering::Less => {
                                let mut m = String::from_str("发现新版本：");
                                m.append(installed.as_str());
                                m.append(" → ");
                                m.append(latest.as_str());
                                m.append("\n\n升级将重启 dsh 服务，进行中的会话会中断。");
                                self.stage = UpdateStage::AwaitAnswer(latest);
                                UpdateAction::OfferUpgrade(m)
                            },
                            _ => {
                                if self.manual {
                                    let mut m = String::from_str("已是最新版本（");
                                    m.append(installed.as_str());
                                    m.append("）。");
                                    UpdateAction::Inform(m)
                                } else {
                                    UpdateAction::Stop
                                }
                            },
                        }
                    },
                }
            },
            (UpdateStage::AwaitAnswer(target), UpdateEvent::Answered(yes)) => {
                if yes {
                    UpdateAction::Upgrade(target)
                } else {
                    UpdateAction::Stop
                }
            },
            _ => UpdateAction::Stop,
        }
    }
}

/// Where an upgrade stands.
#[derive(Clone, Copy, Debug, PartialEq, Eq, Structural)]
pub enum UpgradeStage {
    Begin,
    /// The npm installation of the target version runs.
    Installing,
    /// The old service was stopped and the startup sequence runs again.
    Restarting,
    Finished,
}

/// What the application observed after an action of the upgrade.
pub enum UpgradeEvent {
    Started,
    /// Whether the installation succeeded in time.
    Installed(bool),
    /// The startup sequence that followed the installation is over.
    Restarted,
}

/// What the application is to do next in an upgrade.
pub enum UpgradeAction {
    /// Push the notice, show the shell's `upgrading` page, and run the
    /// installation.
    Install { notice: ShellStatus, command: Invocation },
    /// Show the shell's error page with this hash; the upgrade is over.
    ShowError(String),
    /// Kill the process tree of the old service (if there is one), then run
    /// the startup sequence again.
    Restart(Option<u32>),
    /// The upgrade is over.
    Stop,
}

/// A user-confirmed upgrade of dsh to version `target`.
pub struct Upgrade {
    pub target: String,
    pub stage: UpgradeStage,
}

pub open spec fn upgrading_message() -> Seq<char> {
    "正在升级 dsh，请稍候…"@
}

pub open spec fn upgrade_failed_message(target: Seq<char>) -> Seq<char> {
    "dsh 升级到 "@ + target + " 失败，请检查网络后重试。"@
}

impl Upgrade {
    pub fn new(target: String) -> (r: Upgrade)
        ensures
            r.target@ == target@,
            r.stage == UpgradeStage::Begin,
    {
        Upgrade { target, stage: UpgradeStage::Begin }
    }

    /// Takes the next step of the upgrade on event `ev`. The application
    /// state is marked as upgrading from the start of the installation until
    /// the restarted service is up (or the installation failed), so that
    /// the exit of the old service does not bring up the stopped page.
    pub fn step(&mut self, state: &mut AppState, ev: UpgradeEvent) -> (r: UpgradeAction)
        ensures
            final(self).target == old(self).target,
            match (old(self).stage, ev) {
                (UpgradeStage::Begin, UpgradeEvent::Started) => {
                    &&& final(self).stage == UpgradeStage::Installing
                    &&& *final(state) == old(state).upgrading_set(true)
                    &&& final(state).upgrading
                    &&& r matches UpgradeAction::Install { notice, command } && notice@ == status_of(
                        Phase::Loading,
                        None,
                        Some(upgrading_message()),
                    ) && command_line(command) == seq![
                        "cmd"@,
                        "/C"@,
                        "npm"@,
                        "i"@,
                        "-g"@,
                        "@deepseek-ai/dsh@"@ + old(self).target@,
                    ] && command.timeout_secs == Some(600u64)
                },
                (UpgradeStage::Installing, UpgradeEvent::Installed(false)) => {
                    &&& final(self).stage == UpgradeStage::Finished
                    &&& *final(state) == old(state).upgrading_set(false)
                    &&& !final(state).upgrading
                    &&& r matches UpgradeAction::ShowError(h) && h@ == error_hash_of(
                        encode_utf8("upgrade-failed"@),
                        encode_utf8(upgrade_failed_message(old(self).target@)),
                    )
                },
                (UpgradeStage::Installing, UpgradeEvent::Installed(true)) => {
                    &&& final(self).stage == UpgradeStage::Restarting
                    &&& r matches UpgradeAction::Restart(pid) && pid == old(state).pid
                    &&& *final(state) == old(state).without_service()
                },
                (UpgradeStage::Restarting, UpgradeEvent::Restarted) => {
                    &&& final(self).stage == UpgradeStage::Finished
                    &&& *final(state) == old(state).upgrading_set(false)
                    &&& !final(state).upgrading
                    &&& final(state).pid == old(state).pid
                    &&& r is Stop
                },
                _ => {
                    &&& final(self).stage == UpgradeStage::Finished
                    &&& *final(state) == *old(state)
                    &&& r is Stop
                },
            },
    {
        match (self.stage, ev) {
            (UpgradeStage::Begin, UpgradeEvent::Started) => {
                state.set_upgrading(true);
                self.stage = UpgradeStage::Installing;
                let notice = ShellStatus {
                    phase: Phase::Loading,
                    code: None,
                    message: Some(String::from_str("正在升级 dsh，请稍候…")),
                };
                let command = install_dsh_version(self.target.as_str());
                UpgradeAction::Install { notice, command }
            },
            (UpgradeStage::Installing, UpgradeEvent::Installed(ok)) => {
                if ok {
                    let pid = state.take_service();
                    self.stage = UpgradeStage::Restarting;
                    UpgradeAction::Restart(pid)
                } else {
                    state.set_upgrading(false);
                    self.stage = UpgradeStage::Finished;
                    let mut m = String::from_str("dsh 升级到 ");
                    m.append(self.target.as_str());
                    m.append(" 失败，请检查网络后重试。");
                    let code = ErrorCode::UpgradeFailed.name();
                    UpgradeAction::ShowError(error_hash(code, m.as_str()))
                }
            },
            (UpgradeStage::Restarting, UpgradeEvent::Restarted) => {
                state.set_upgrading(false);
                self.stage = UpgradeStage::Finished;
                UpgradeAction::Stop
            },
            _ => {
                self.stage = UpgradeStage::Finished;
                UpgradeAction::Stop
            },
        }
    }
}

} // verus!

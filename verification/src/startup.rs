//! The startup sequence of the dsh service, as a state machine: check that
//! dsh is installed, check that the service port is free, spawn the service,
//! poll the port until it accepts connections or the deadline passes, then
//! hand over to the service UI. The application performs each action and
//! reports what happened as the next event.
use vstd::prelude::*;

use crate::service::{POLL_INTERVAL_MS, READY_TIMEOUT_SECS};
use crate::shell::{
    port_occupied, port_occupied_message, ready, setup, spawn_failed, spawn_failed_message,
    starting, starting_message, startup_timeout, status_of, timeout_message, ErrorCode, Phase,
    ShellStatus, StatusView,
};
use crate::StartKind;

verus! {

/// Where the startup sequence stands.
#[derive(Clone, Copy, Debug, PartialEq, Eq, Structural)]
pub enum StartupStage {
    /// Not started yet.
    Begin,
    /// Waiting to learn whether dsh is installed.
    CheckingInstalled,
    /// Waiting to learn whether the service port is taken.
    CheckingPort,
    /// Waiting for the service process to be spawned.
    Spawning,
    /// Waiting to learn whether the readiness deadline has passed; the
    /// service runs as process `pid`.
    Waiting(u32),
    /// Waiting for a probe of the service port.
    Probing(u32),
    /// Waiting for the pause between two probes to end.
    Sleeping(u32),
    /// Waiting for the service process tree to be killed after a timeout.
    Killing,
    /// Waiting for ready service `pid` to be recorded in the application state.
    HandingOver(u32),
    /// Nothing more to do.
    Finished,
}

/// What the application observed after an action.
pub enum StartupEvent {
    /// The sequence is to begin.
    Started,
    /// Whether `dsh --version` answered.
    Installed(bool),
    /// Whether something already listens on the service port.
    PortChecked { busy: bool },
    /// The spawned service's pid, or why it could not be spawned.
    Spawned(Result<u32, String>),
    /// Whether the readiness deadline is still ahead.
    Clock { before_deadline: bool },
    /// Whether the service port accepted a connection.
    Probed { open: bool },
    /// The pause between two probes ended.
    Slept,
    /// The service process tree was killed.
    Killed,
    /// The ready service was recorded in the application state.
    Recorded,
}

/// What the application is to do next.
#[derive(Clone, Copy, Debug, PartialEq, Eq, Structural)]
pub enum StartupAction {
    /// Ask `dsh --version` whether dsh is installed.
    CheckInstalled,
    /// Check whether something listens on the service port.
    CheckPort,
    /// Spawn the dsh web service.
    Spawn,
    /// Set the readiness deadline this many seconds from now, then report
    /// whether it is still ahead.
    StartDeadline(u64),
    /// Report whether the readiness deadline is still ahead.
    ReadClock,
    /// Try to connect to the service port.
    Probe,
    /// Sleep this many milliseconds.
    Sleep(u64),
    /// Kill the process tree of the spawned service.
    KillService,
    /// The service `pid` is ready: record it in the application state.
    RecordService(u32),
    /// Navigate the window to the service UI and watch the service process.
    ShowService,
    /// The sequence is over.
    Stop,
}

/// One step of the sequence: a state to push to the shell page (first),
/// then an action.
pub struct StartupStep {
    pub notice: Option<ShellStatus>,
    pub action: StartupAction,
}

/// The startup sequence, with the events it has seen so far.
pub struct Startup {
    pub kind: StartKind,
    pub stage: StartupStage,
    pub events: Ghost<Seq<StartupEvent>>,
}

/// The stage that follows `stage` on event `ev`.
pub open spec fn next_stage(stage: StartupStage, ev: StartupEvent) -> StartupStage {
    match (stage, ev) {
        (StartupStage::Begin, StartupEvent::Started) => StartupStage::CheckingInstalled,
        (StartupStage::CheckingInstalled, StartupEvent::Installed(true)) => StartupStage::CheckingPort,
        (StartupStage::CheckingPort, StartupEvent::PortChecked { busy: false }) => StartupStage::Spawning,
        (StartupStage::Spawning, StartupEvent::Spawned(Ok(pid))) => StartupStage::Waiting(pid),
        (StartupStage::Waiting(pid), StartupEvent::Clock { before_deadline: true }) => StartupStage::Probing(pid),
        (StartupStage::Waiting(pid), StartupEvent::Clock { before_deadline: false }) => StartupStage::Killing,
        (StartupStage::Probing(pid), StartupEvent::Probed { open: true }) => StartupStage::HandingOver(pid),
        (StartupStage::Probing(pid), StartupEvent::Probed { open: false }) => StartupStage::Sleeping(pid),
        (StartupStage::Sleeping(pid), StartupEvent::Slept) => StartupStage::Waiting(pid),
        _ => StartupStage::Finished,
    }
}

/// The action that follows `stage` on event `ev`.
pub open spec fn next_action(stage: StartupStage, ev: StartupEvent) -> StartupAction {
    match (stage, ev) {
        (StartupStage::Begin, StartupEvent::Started) => StartupAction::CheckInstalled,
        (StartupStage::CheckingInstalled, StartupEvent::Installed(true)) => StartupAction::CheckPort,
        (StartupStage::CheckingPort, StartupEvent::PortChecked { busy: false }) => StartupAction::Spawn,
        (StartupStage::Spawning, StartupEvent::Spawned(Ok(pid))) => StartupAction::StartDeadline(
            READY_TIMEOUT_SECS,
        ),
        (StartupStage::Waiting(pid), StartupEvent::Clock { before_deadline: true }) => StartupAction::Probe,
        (StartupStage::Waiting(pid), StartupEvent::Clock { before_deadline: false }) => StartupAction::KillService,
        (StartupStage::Probing(pid), StartupEvent::Probed { open: true }) => StartupAction::RecordService(pid),
        (StartupStage::HandingOver(pid), StartupEvent::Recorded) => StartupAction::ShowService,
        (StartupStage::Probing(pid), StartupEvent::Probed { open: false }) => StartupAction::Sleep(
            POLL_INTERVAL_MS,
        ),
        (StartupStage::Sleeping(pid), StartupEvent::Slept) => StartupAction::ReadClock,
        _ => StartupAction::Stop,
    }
}

/// The state pushed to the shell page on event `ev` in `stage`, if any.
pub open spec fn next_notice(stage: StartupStage, ev: StartupEvent) -> Option<StatusView> {
    match (stage, ev) {
        (StartupStage::Begin, StartupEvent::Started) => Some(
            status_of(Phase::Loading, None, Some(starting_message())),
        ),
        (StartupStage::CheckingInstalled, StartupEvent::Installed(false)) => Some(
            status_of(Phase::Setup, None, None),
        ),
        (StartupStage::CheckingPort, StartupEvent::PortChecked { busy: true }) => Some(
            status_of(Phase::Error, Some(ErrorCode::PortOccupied), Some(port_occupied_message())),
        ),
        (StartupStage::Spawning, StartupEvent::Spawned(Err(reason))) => Some(
            status_of(
                Phase::Error,
                Some(ErrorCode::SpawnFailed),
                Some(spawn_failed_message(reason@)),
            ),
        ),
        (StartupStage::HandingOver(pid), StartupEvent::Recorded) => Some(
            status_of(Phase::Ready, None, None),
        ),
        (StartupStage::Killing, StartupEvent::Killed) => Some(
            status_of(Phase::Error, Some(ErrorCode::StartupTimeout), Some(timeout_message())),
        ),
        _ => None,
    }
}

pub open spec fn notice_view(n: Option<ShellStatus>) -> Option<StatusView> {
    match n {
        Some(s) => Some(s@),
        None => None,
    }
}

impl Startup {
    /// The stage is the one that the events seen so far lead to.
    pub open spec fn wf(self) -> bool {
        self.stage == stage_after(self.events@, self.events@.len() as int)
    }

    /// A sequence that has not started yet.
    pub fn new(kind: StartKind) -> (r: Startup)
        ensures
            r.stage == StartupStage::Begin,
            r.kind == kind,
            r.events@ == Seq::<StartupEvent>::empty(),
            r.wf(),
    {
        Startup { kind, stage: StartupStage::Begin, events: Ghost(Seq::empty()) }
    }

    /// Takes the next step of the sequence on event `ev`. The step is the
    /// one that the run of all events seen so far takes, so the laws over
    /// runs below hold of every sequence of calls.
    pub fn step(&mut self, ev: StartupEvent) -> (r: StartupStep)
        requires
            old(self).wf(),
        ensures
            final(self).wf(),
            final(self).events@ == old(self).events@.push(ev),
            final(self).stage == next_stage(old(self).stage, ev),
            final(self).kind == old(self).kind,
            r.action == next_action(old(self).stage, ev),
            notice_view(r.notice) == next_notice(old(self).stage, ev),
            r.action == action_at(final(self).events@, seen(old(self).events@)),
            notice_view(r.notice) == notice_at(final(self).events@, seen(old(self).events@)),
            r.notice matches Some(n) ==> n.phase != Phase::Stopped,
            r.notice is Some ==> old(self).stage == StartupStage::Begin || final(self).stage
                == StartupStage::Finished,
    {
        let ghost before = self.events@;
        proof {
            lemma_stage_after_push(before, ev, seen(before));
            self.events@ = before.push(ev);
        }
        let stage = self.stage;
        let (next, notice, action) = match (stage, ev) {
            (StartupStage::Begin, StartupEvent::Started) => (
                StartupStage::CheckingInstalled,
                Some(starting()),
                StartupAction::CheckInstalled,
            ),
            (StartupStage::CheckingInstalled, StartupEvent::Installed(installed)) => {
                if installed {
                    (StartupStage::CheckingPort, None, StartupAction::CheckPort)
                } else {
                    (StartupStage::Finished, Some(setup()), StartupAction::Stop)
                }
            },
            (StartupStage::CheckingPort, StartupEvent::PortChecked { busy }) => {
                if busy {
                    (StartupStage::Finished, Some(port_occupied()), StartupAction::Stop)
                } else {
                    (StartupStage::Spawning, None, StartupAction::Spawn)
                }
            },
            (StartupStage::Spawning, StartupEvent::Spawned(spawned)) => match spawned {
                Ok(pid) => (
                    StartupStage::Waiting(pid),
                    None,
                    StartupAction::StartDeadline(READY_TIMEOUT_SECS),
                ),
                Err(reason) => (
                    StartupStage::Finished,
                    Some(spawn_failed(reason.as_str())),
                    StartupAction::Stop,
                ),
            },
            (StartupStage::Waiting(pid), StartupEvent::Clock { before_deadline }) => {
                if before_deadline {
                    (StartupStage::Probing(pid), None, StartupAction::Probe)
                } else {
                    (StartupStage::Killing, None, StartupAction::KillService)
                }
            },
            (StartupStage::Probing(pid), StartupEvent::Probed { open }) => {
                if open {
                    (StartupStage::HandingOver(pid), None, StartupAction::RecordService(pid))
                } else {
                    (StartupStage::Sleeping(pid), None, StartupAction::Sleep(POLL_INTERVAL_MS))
                }
            },
            (StartupStage::Sleeping(pid), StartupEvent::Slept) => (
                StartupStage::Waiting(pid),
                None,
                StartupAction::ReadClock,
            ),
            (StartupStage::Killing, StartupEvent::Killed) => (
                StartupStage::Finished,
                Some(startup_timeout()),
                StartupAction::Stop,
            ),
            (StartupStage::HandingOver(_pid), StartupEvent::Recorded) => (
                StartupStage::Finished,
                Some(ready()),
                StartupAction::ShowService,
            ),
            _ => (StartupStage::Finished, None, StartupAction::Stop),
        };
        self.stage = next;
        StartupStep { notice, action }
    }
}

// ---------------------------------------------------------------------------
// Laws over whole runs
// ---------------------------------------------------------------------------
/// The stage reached from `Begin` after the first `n` events of `evs`.
pub open spec fn stage_after(evs: Seq<StartupEvent>, n: int) -> StartupStage
    decreases n,
{
    if n <= 0 {
        StartupStage::Begin
    } else {
        next_stage(stage_after(evs, n - 1), evs[n - 1])
    }
}

/// The number of events in `evs`.
pub open spec fn seen(evs: Seq<StartupEvent>) -> int {
    evs.len() as int
}

/// The notice pushed on the `i`-th event of a run.
pub open spec fn notice_at(evs: Seq<StartupEvent>, i: int) -> Option<StatusView> {
    next_notice(stage_after(evs, i), evs[i])
}

/// The action asked for on the `i`-th event of a run.
pub open spec fn action_at(evs: Seq<StartupEvent>, i: int) -> StartupAction {
    next_action(stage_after(evs, i), evs[i])
}

/// A page that ends the sequence: setup, an error, or ready.
pub open spec fn is_final_page(n: Option<StatusView>) -> bool {
    n matches Some(v) && (v.phase == Phase::Setup || v.phase == Phase::Error || v.phase
        == Phase::Ready)
}

/// The event that a stage waits for (the answer to the action that led to
/// it).
pub open spec fn expects(stage: StartupStage, ev: StartupEvent) -> bool {
    match (stage, ev) {
        (StartupStage::Begin, StartupEvent::Started) => true,
        (StartupStage::CheckingInstalled, StartupEvent::Installed(_)) => true,
        (StartupStage::CheckingPort, StartupEvent::PortChecked { .. }) => true,
        (StartupStage::Spawning, StartupEvent::Spawned(_)) => true,
        (StartupStage::Waiting(_), StartupEvent::Clock { .. }) => true,
        (StartupStage::Probing(_), StartupEvent::Probed { .. }) => true,
        (StartupStage::Sleeping(_), StartupEvent::Slept) => true,
        (StartupStage::Killing, StartupEvent::Killed) => true,
        (StartupStage::HandingOver(_), StartupEvent::Recorded) => true,
        _ => false,
    }
}

/// Every event of the run answers what the sequence waited for.
pub open spec fn well_answered(evs: Seq<StartupEvent>) -> bool {
    forall|i: int| 0 <= i < evs.len() ==> expects(#[trigger] stage_after(evs, i), evs[i])
}

/// Stages in which dsh is known to be installed.
pub open spec fn past_install_check(stage: StartupStage) -> bool {
    match stage {
        StartupStage::Begin | StartupStage::CheckingInstalled | StartupStage::Finished => false,
        _ => true,
    }
}

/// Stages in which the service port was found free.
pub open spec fn past_port_check(stage: StartupStage) -> bool {
    past_install_check(stage) && stage != StartupStage::CheckingPort
}

/// Stages in which a service process `pid` runs.
pub open spec fn running_pid(stage: StartupStage) -> Option<u32> {
    match stage {
        StartupStage::Waiting(pid) => Some(pid),
        StartupStage::Probing(pid) => Some(pid),
        StartupStage::Sleeping(pid) => Some(pid),
        StartupStage::HandingOver(pid) => Some(pid),
        _ => None,
    }
}

pub open spec fn installed_seen(evs: Seq<StartupEvent>, n: int) -> bool {
    exists|i: int| 0 <= i < n && #[trigger] evs[i] == StartupEvent::Installed(true)
}

pub open spec fn port_free_seen(evs: Seq<StartupEvent>, n: int) -> bool {
    exists|i: int| 0 <= i < n && #[trigger] evs[i] == StartupEvent::PortChecked { busy: false }
}

pub open spec fn spawned_seen(evs: Seq<StartupEvent>, n: int, pid: u32) -> bool {
    exists|i: int| 0 <= i < n && #[trigger] evs[i] == StartupEvent::Spawned(Ok(pid))
}

pub open spec fn ready_probe_seen(evs: Seq<StartupEvent>, n: int) -> bool {
    exists|i: int| 0 <= i < n && #[trigger] evs[i] == StartupEvent::Probed { open: true }
}

proof fn lemma_stage_after_push(evs: Seq<StartupEvent>, ev: StartupEvent, n: int)
    requires
        0 <= n <= evs.len(),
    ensures
        stage_after(evs.push(ev), n) == stage_after(evs, n),
    decreases n,
{
    if n > 0 {
        lemma_stage_after_push(evs, ev, n - 1);
        assert(evs.push(ev)[n - 1] == evs[n - 1]);
    }
}

proof fn lemma_history(evs: Seq<StartupEvent>, n: int)
    requires
        0 <= n <= evs.len(),
    ensures
        past_install_check(stage_after(evs, n)) ==> installed_seen(evs, n),
        past_port_check(stage_after(evs, n)) ==> port_free_seen(evs, n),
        running_pid(stage_after(evs, n)) matches Some(pid) ==> spawned_seen(evs, n, pid),
        stage_after(evs, n) is HandingOver ==> ready_probe_seen(evs, n),
    decreases n,
{
    if n > 0 {
        lemma_history(evs, n - 1);
        let last = n - 1;
        assert(evs[last] == evs[last]);
        if let Some(pid) = running_pid(stage_after(evs, n)) {
            if spawned_seen(evs, n - 1, pid) {
                let i = choose|i: int| 0 <= i < n - 1 && #[trigger] evs[i] == StartupEvent::Spawned(Ok(pid));
                assert(evs[i] == StartupEvent::Spawned(Ok(pid)));
            }
        }
        if installed_seen(evs, n - 1) {
            let i = choose|i: int| 0 <= i < n - 1 && #[trigger] evs[i] == StartupEvent::Installed(true);
            assert(evs[i] == StartupEvent::Installed(true));
        }
        if port_free_seen(evs, n - 1) {
            let i = choose|i: int|
                0 <= i < n - 1 && #[trigger] evs[i] == StartupEvent::PortChecked { busy: false };
            assert(evs[i] == StartupEvent::PortChecked { busy: false });
        }
    }
}

proof fn lemma_finished_stays(evs: Seq<StartupEvent>, i: int, j: int)
    requires
        0 <= i <= j,
        stage_after(evs, i) == StartupStage::Finished,
    ensures
        stage_after(evs, j) == StartupStage::Finished,
    decreases j - i,
{
    if j > i {
        lemma_finished_stays(evs, i, j - 1);
    }
}

proof fn lemma_final_page_finishes(stage: StartupStage, ev: StartupEvent)
    ensures
        is_final_page(next_notice(stage, ev)) ==> next_stage(stage, ev) == StartupStage::Finished,
        next_action(stage, ev) == StartupAction::ShowService ==> next_stage(stage, ev)
            == StartupStage::Finished,
        expects(stage, ev) ==> (next_stage(stage, ev) == StartupStage::Finished <==> is_final_page(
            next_notice(stage, ev),
        )),
        stage == StartupStage::Finished ==> next_notice(stage, ev) is None && next_action(stage, ev)
            == StartupAction::Stop,
{
}

/// The service is spawned only after dsh was found installed and the service
/// port was found free, in every run of the sequence.
pub proof fn law_spawn_only_after_checks(evs: Seq<StartupEvent>, i: int)
    requires
        0 <= i < evs.len(),
        action_at(evs, i) == StartupAction::Spawn,
    ensures
        installed_seen(evs, i),
        evs[i] == (StartupEvent::PortChecked { busy: false }),
{
    lemma_history(evs, i);
}

/// The service is recorded only once a probe, made after it was spawned,
/// found its port open; the window goes to the service UI only after that,
/// with the ready page pushed just before.
pub proof fn law_hand_over_only_when_ready(evs: Seq<StartupEvent>, i: int)
    requires
        0 <= i < evs.len(),
    ensures
        action_at(evs, i) matches StartupAction::RecordService(pid) ==> {
            &&& evs[i] == (StartupEvent::Probed { open: true })
            &&& stage_after(evs, i) == StartupStage::Probing(pid)
            &&& spawned_seen(evs, i, pid)
            &&& installed_seen(evs, i)
            &&& port_free_seen(evs, i)
        },
        action_at(evs, i) == StartupAction::ShowService ==> {
            &&& evs[i] == StartupEvent::Recorded
            &&& stage_after(evs, i) is HandingOver
            &&& ready_probe_seen(evs, i)
            &&& spawned_seen(evs, i, stage_after(evs, i)->HandingOver_0)
            &&& notice_at(evs, i) == Some(status_of(Phase::Ready, None, None))
        },
{
    lemma_history(evs, i);
}

/// In every run, the loading page can only come first; setup, error and
/// ready pages end the run, so at most one of them is pushed and nothing is
/// pushed after it; the window is sent to the service UI at most once. In a
/// run whose events answer what was asked, reaching the end means that
/// exactly such a page was pushed.
pub proof fn law_startup_pages(evs: Seq<StartupEvent>)
    ensures
        forall|i: int|
            0 <= i < evs.len() && (#[trigger] notice_at(evs, i) matches Some(v) && v.phase
                == Phase::Loading) ==> i == 0,
        forall|i: int, j: int|
            0 <= i < j < evs.len() && is_final_page(#[trigger] notice_at(evs, i)) ==> #[trigger] notice_at(
                evs,
                j,
            ) is None,
        forall|i: int, j: int|
            0 <= i < j < evs.len() && #[trigger] action_at(evs, i) == StartupAction::ShowService
                ==> #[trigger] action_at(evs, j) == StartupAction::Stop,
        well_answered(evs) && stage_after(evs, evs.len() as int) == StartupStage::Finished ==> exists|
            i: int,
        |
            0 <= i < evs.len() && is_final_page(#[trigger] notice_at(evs, i)),
{
    assert forall|i: int|
        0 <= i < evs.len() && (#[trigger] notice_at(evs, i) matches Some(v) && v.phase
            == Phase::Loading) implies i == 0 by {
        if i > 0 {
            assert(stage_after(evs, i) != StartupStage::Begin);
        }
    }
    assert forall|i: int, j: int|
        0 <= i < j < evs.len() && is_final_page(#[trigger] notice_at(evs, i)) implies #[trigger] notice_at(
            evs,
            j,
        ) is None by {
        lemma_final_page_finishes(stage_after(evs, i), evs[i]);
        lemma_finished_stays(evs, i + 1, j);
        lemma_final_page_finishes(stage_after(evs, j), evs[j]);
    }
    assert forall|i: int, j: int|
        0 <= i < j < evs.len() && #[trigger] action_at(evs, i) == StartupAction::ShowService
            implies #[trigger] action_at(evs, j) == StartupAction::Stop by {
        lemma_final_page_finishes(stage_after(evs, i), evs[i]);
        lemma_finished_stays(evs, i + 1, j);
        lemma_final_page_finishes(stage_after(evs, j), evs[j]);
    }
    if well_answered(evs) && stage_after(evs, evs.len() as int) == StartupStage::Finished {
        lemma_final_page_reached(evs, evs.len() as int);
    }
}

proof fn lemma_final_page_reached(evs: Seq<StartupEvent>, n: int)
    requires
        0 <= n <= evs.len(),
        well_answered(evs),
        stage_after(evs, n) == StartupStage::Finished,
    ensures
        exists|i: int| 0 <= i < n && is_final_page(#[trigger] notice_at(evs, i)),
    decreases n,
{
    if n > 0 {
        let k = n - 1;
        if stage_after(evs, k) == StartupStage::Finished {
            lemma_final_page_reached(evs, k);
            let i = choose|i: int| 0 <= i < k && is_final_page(#[trigger] notice_at(evs, i));
            assert(is_final_page(notice_at(evs, i)));
        } else {
            assert(expects(stage_after(evs, k), evs[k]));
            lemma_final_page_finishes(stage_after(evs, k), evs[k]);
            assert(is_final_page(notice_at(evs, k)));
        }
    }
}

/// Startup pushes a page only when it begins (loading) or ends (setup, an
/// error, or ready): never while it checks, spawns, waits or polls, and
/// never the stopped page.
pub proof fn law_pages_only_at_start_and_end(stage: StartupStage, ev: StartupEvent)
    ensures
        next_notice(stage, ev) matches Some(v) ==> ((stage == StartupStage::Begin && v.phase
            == Phase::Loading) || (next_stage(stage, ev) == StartupStage::Finished && (v.phase
            == Phase::Setup || v.phase == Phase::Error || v.phase == Phase::Ready))),
        next_notice(stage, ev) matches Some(v) ==> v.phase != Phase::Stopped,
{
}

/// A probe that finds the port still closed pushes nothing and waits the
/// poll interval before the next one.
pub proof fn law_closed_probe_waits_quietly(pid: u32)
    ensures
        next_notice(StartupStage::Probing(pid), StartupEvent::Probed { open: false }) is None,
        next_action(StartupStage::Probing(pid), StartupEvent::Probed { open: false })
            == StartupAction::Sleep(300),
        next_stage(StartupStage::Probing(pid), StartupEvent::Probed { open: false })
            == StartupStage::Sleeping(pid),
{
}

/// In every run, every page pushed is loading, setup, an error or ready.
pub proof fn law_run_never_shows_stopped(evs: Seq<StartupEvent>)
    ensures
        forall|i: int|
            0 <= i < evs.len() ==> (#[trigger] notice_at(evs, i) matches Some(v) ==> (v.phase
                == Phase::Loading || v.phase == Phase::Setup || v.phase == Phase::Error || v.phase
                == Phase::Ready)),
{
}

/// An occupied port ends the sequence with the port-occupied error and
/// without spawning anything.
pub proof fn law_port_busy_stops(stage: StartupStage)
    requires
        stage == StartupStage::CheckingPort,
    ensures
        next_action(stage, StartupEvent::PortChecked { busy: true }) == StartupAction::Stop,
        next_stage(stage, StartupEvent::PortChecked { busy: true }) == StartupStage::Finished,
        next_notice(stage, StartupEvent::PortChecked { busy: true }) == Some(
            status_of(Phase::Error, Some(ErrorCode::PortOccupied), Some(port_occupied_message())),
        ),
{
}

/// A missing dsh ends the sequence on the setup page.
pub proof fn law_missing_dsh_shows_setup(stage: StartupStage)
    requires
        stage == StartupStage::CheckingInstalled,
    ensures
        next_action(stage, StartupEvent::Installed(false)) == StartupAction::Stop,
        next_notice(stage, StartupEvent::Installed(false)) == Some(
            status_of(Phase::Setup, None, None),
        ),
{
}

/// When the deadline passes, the spawned service is killed first, and only
/// then does the timeout error page come up.
pub proof fn law_timeout_kills_then_reports(pid: u32)
    ensures
        next_action(StartupStage::Waiting(pid), StartupEvent::Clock { before_deadline: false })
            == StartupAction::KillService,
        next_notice(StartupStage::Waiting(pid), StartupEvent::Clock { before_deadline: false })
            is None,
        next_notice(StartupStage::Killing, StartupEvent::Killed) == Some(
            status_of(Phase::Error, Some(ErrorCode::StartupTimeout), Some(timeout_message())),
        ),
{
}

} // verus!

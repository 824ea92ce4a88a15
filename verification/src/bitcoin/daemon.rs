//! Supervision of the chain daemon: the decisions that make sure a daemon
//! can be reached before any chain operation goes on.
//!
//! The supervisor does no work itself. It names the next action (probe the
//! daemon, look for the executable, launch it, wait, set up the wallet) and
//! takes in what came of it.

use vstd::prelude::*;
use crate::bitcoin::policy::RetryPolicy;
use crate::error::HarnessError;

verus! {

/// The executable that is launched where the configuration names none.
pub const DEFAULT_EXECUTABLE: &'static str = "C:\\Program Files\\Bitcoin\\daemon\\bitcoind.exe";

/// The flag that binds a launched daemon to the private test network.
pub const REGTEST_FLAG: &'static str = "-regtest";

/// Where the supervisor stands.
#[derive(Debug, Clone, Copy, PartialEq, Eq, Structural)]
pub enum DaemonPhase {
    /// The first probe is due: is a daemon running already?
    Probing,
    /// No daemon answered; the executable is to be looked for.
    Locating,
    /// The executable exists and is to be launched.
    Launching,
    /// The daemon was launched; the wait before the next probe is due.
    Waiting,
    /// A probe of the launched daemon is due.
    Polling,
    /// The wait before wallet bootstrap is due.
    Settling,
    /// Wallet bootstrap is due.
    Provisioning,
    /// Done: chain operations can go on.
    Running,
    /// Done: no daemon can be had.
    Failed(HarnessError),
}

/// What the loop reports back to the supervisor.
#[derive(Debug, Clone, Copy, PartialEq, Eq, Structural)]
pub enum DaemonEvent {
    /// A probe ended; `true` where the daemon answered.
    Probed(bool),
    /// The executable was looked for; `true` where it exists.
    Located(bool),
    /// The launch ended; `true` where a process was started.
    Launched(bool),
    /// The wait is over.
    Waited,
    /// Wallet bootstrap ended; `true` where the wallet is usable.
    WalletFinished(bool),
}

/// What the loop has to do next.
#[derive(Debug, Clone, Copy, PartialEq, Eq, Structural)]
pub enum DaemonAction {
    /// Ask the daemon for its status.
    Probe,
    /// See whether the executable exists.
    Locate,
    /// Start the executable as a child process, with the test-network flag.
    Launch,
    /// Sleep for this many seconds.
    Wait(u64),
    /// Run wallet bootstrap.
    SetUpWallet,
    /// Stop: the daemon can be used.
    Finish,
    /// Stop with this failure.
    Abort(HarnessError),
}

/// The state of a supervisor, as mathematics.
pub struct DaemonModel {
    /// The path of the executable that is launched where no daemon answers.
    pub executable: Seq<char>,
    /// How many readiness polls a launched daemon gets.
    pub polls_allowed: nat,
    /// The wait before each poll, in seconds.
    pub poll_interval_secs: nat,
    /// The wait before wallet bootstrap, in seconds.
    pub settle_secs: nat,
    /// Where the supervisor stands.
    pub phase: DaemonPhase,
    /// How many polls of the launched daemon went unanswered.
    pub polls: nat,
    /// Whether this supervisor launched a process that it has not stopped.
    pub owns_process: bool,
    /// Whether the launched daemon failed to answer within its polls.
    pub timed_out: bool,
    /// How wallet bootstrap ended, once it has.
    pub wallet_ready: Option<bool>,
}

impl DaemonModel {
    /// The supervisor before its first action. It keeps a process that it
    /// owns from an earlier start.
    pub open spec fn start(
        executable: Seq<char>,
        policy: RetryPolicy,
        owns_process: bool,
    ) -> DaemonModel {
        DaemonModel {
            executable,
            polls_allowed: policy.readiness_polls as nat,
            poll_interval_secs: policy.poll_interval_secs as nat,
            settle_secs: policy.settle_secs as nat,
            phase: DaemonPhase::Probing,
            polls: 0,
            owns_process,
            timed_out: false,
            wallet_ready: None,
        }
    }

    /// The invariant of a supervisor: it never polls more often than it is
    /// allowed, and it fails for the two reasons that end a start and for
    /// no other.
    pub open spec fn wf(self) -> bool {
        &&& self.polls <= self.polls_allowed
        &&& (self.phase == DaemonPhase::Waiting || self.phase == DaemonPhase::Polling)
            ==> self.polls < self.polls_allowed
        &&& self.phase matches DaemonPhase::Failed(e) ==> e == HarnessError::ExecutableNotFound || e
            == HarnessError::LaunchFailed
        &&& self.phase == DaemonPhase::Running <==> self.wallet_ready is Some
    }

    /// Whether the supervisor has ended.
    pub open spec fn finished(self) -> bool {
        self.phase == DaemonPhase::Running || self.phase is Failed
    }

    /// Whether `event` is the report that the supervisor waits for.
    pub open spec fn expects(self, event: DaemonEvent) -> bool {
        match (self.phase, event) {
            (DaemonPhase::Probing, DaemonEvent::Probed(_)) => true,
            (DaemonPhase::Locating, DaemonEvent::Located(_)) => true,
            (DaemonPhase::Launching, DaemonEvent::Launched(_)) => true,
            (DaemonPhase::Waiting, DaemonEvent::Waited) => true,
            (DaemonPhase::Polling, DaemonEvent::Probed(_)) => true,
            (DaemonPhase::Settling, DaemonEvent::Waited) => true,
            (DaemonPhase::Provisioning, DaemonEvent::WalletFinished(_)) => true,
            _ => false,
        }
    }

    /// The supervisor after `event`.
    ///
    /// A daemon that answers the first probe is used as it is and is not
    /// owned. Otherwise the executable must exist, or the start fails; it
    /// is launched, and the process is owned from then on. The launched
    /// daemon is polled until it answers or its polls are used up, which is
    /// noted and does not end the start. Then comes the wait to settle and
    /// wallet bootstrap, whose failure does not end the start either. A
    /// report that the supervisor does not wait for changes nothing.
    pub open spec fn step(self, event: DaemonEvent) -> DaemonModel {
        match (self.phase, event) {
            (DaemonPhase::Probing, DaemonEvent::Probed(answered)) => DaemonModel {
                phase: if answered {
                    DaemonPhase::Settling
                } else {
                    DaemonPhase::Locating
                },
                ..self
            },
            (DaemonPhase::Locating, DaemonEvent::Located(exists)) => DaemonModel {
                phase: if exists {
                    DaemonPhase::Launching
                } else {
                    DaemonPhase::Failed(HarnessError::ExecutableNotFound)
                },
                ..self
            },
            (DaemonPhase::Launching, DaemonEvent::Launched(started)) => if !started {
                DaemonModel { phase: DaemonPhase::Failed(HarnessError::LaunchFailed), ..self }
            } else if self.polls_allowed == 0 {
                DaemonModel {
                    phase: DaemonPhase::Settling,
                    owns_process: true,
                    timed_out: true,
                    ..self
                }
            } else {
                DaemonModel { phase: DaemonPhase::Waiting, owns_process: true, polls: 0, ..self }
            },
            (DaemonPhase::Waiting, DaemonEvent::Waited) => DaemonModel {
                phase: DaemonPhase::Polling,
                ..self
            },
            (DaemonPhase::Polling, DaemonEvent::Probed(answered)) => if answered {
                DaemonModel { phase: DaemonPhase::Settling, ..self }
            } else if self.polls + 1 < self.polls_allowed {
                DaemonModel { phase: DaemonPhase::Waiting, polls: self.polls + 1, ..self }
            } else {
                DaemonModel {
                    phase: DaemonPhase::Settling,
                    polls: self.polls + 1,
                    timed_out: true,
                    ..self
                }
            },
            (DaemonPhase::Settling, DaemonEvent::Waited) => DaemonModel {
                phase: DaemonPhase::Provisioning,
                ..self
            },
            (DaemonPhase::Provisioning, DaemonEvent::WalletFinished(usable)) => DaemonModel {
                phase: DaemonPhase::Running,
                wallet_ready: Some(usable),
                ..self
            },
            _ => self,
        }
    }

    /// The supervisor after a run of events, first to last.
    pub open spec fn run(self, events: Seq<DaemonEvent>) -> DaemonModel
        decreases events.len(),
    {
        if events.len() == 0 {
            self
        } else {
            self.run(events.drop_last()).step(events.last())
        }
    }

    /// The supervisor after `polls` rounds of waiting and probing in which
    /// the daemon did not answer.
    pub open spec fn after_silent_polls(self, polls: nat) -> DaemonModel
        decreases polls,
    {
        if polls == 0 {
            self
        } else {
            self.after_silent_polls((polls - 1) as nat).step(DaemonEvent::Waited).step(
                DaemonEvent::Probed(false),
            )
        }
    }

    /// What the loop has to do next.
    pub open spec fn action(self) -> DaemonAction {
        match self.phase {
            DaemonPhase::Probing => DaemonAction::Probe,
            DaemonPhase::Locating => DaemonAction::Locate,
            DaemonPhase::Launching => DaemonAction::Launch,
            DaemonPhase::Waiting => DaemonAction::Wait(self.poll_interval_secs as u64),
            DaemonPhase::Polling => DaemonAction::Probe,
            DaemonPhase::Settling => DaemonAction::Wait(self.settle_secs as u64),
            DaemonPhase::Provisioning => DaemonAction::SetUpWallet,
            DaemonPhase::Running => DaemonAction::Finish,
            DaemonPhase::Failed(e) => DaemonAction::Abort(e),
        }
    }

    /// How making sure that a daemon runs ended, if it has: well as soon as
    /// a daemon answered or the launched one has had its polls, or with
    /// the failure that ended the start.
    pub open spec fn ensured(self) -> Option<Result<(), HarnessError>> {
        match self.phase {
            DaemonPhase::Settling => Some(Ok(())),
            DaemonPhase::Provisioning => Some(Ok(())),
            DaemonPhase::Running => Some(Ok(())),
            DaemonPhase::Failed(e) => Some(Err(e)),
            _ => None,
        }
    }

    /// How the start ended, if it has.
    pub open spec fn outcome(self) -> Option<Result<(), HarnessError>> {
        match self.phase {
            DaemonPhase::Running => Some(Ok(())),
            DaemonPhase::Failed(e) => Some(Err(e)),
            _ => None,
        }
    }

    /// What the start leaves to be warned of: a daemon that did not answer
    /// in time, and a wallet that could not be set up.
    pub open spec fn warnings(self) -> Seq<HarnessError> {
        (if self.timed_out {
            seq![HarnessError::DaemonStartTimeout]
        } else {
            Seq::empty()
        }) + (if self.wallet_ready == Some(false) {
            seq![HarnessError::WalletSetupFailed]
        } else {
            Seq::empty()
        })
    }

    /// The supervisor after `stop`: it owns no process, and is otherwise
    /// as it was.
    pub open spec fn stopped(self) -> DaemonModel {
        DaemonModel { owns_process: false, ..self }
    }

    /// An upper bound on the reports that the supervisor still waits for.
    pub open spec fn fuel(self) -> nat {
        match self.phase {
            DaemonPhase::Probing => 2 * self.polls_allowed + 5,
            DaemonPhase::Locating => 2 * self.polls_allowed + 4,
            DaemonPhase::Launching => 2 * self.polls_allowed + 3,
            DaemonPhase::Waiting => (2 * (self.polls_allowed - self.polls) + 2) as nat,
            DaemonPhase::Polling => (2 * (self.polls_allowed - self.polls) + 1) as nat,
            DaemonPhase::Settling => 2,
            DaemonPhase::Provisioning => 1,
            DaemonPhase::Running => 0,
            DaemonPhase::Failed(_) => 0,
        }
    }
}

/// A supervisor is well formed from the start.
pub proof fn lemma_start_wf(executable: Seq<char>, policy: RetryPolicy, owns_process: bool)
    ensures
        DaemonModel::start(executable, policy, owns_process).wf(),
{
}

/// Every report keeps the supervisor well formed, and leaves its
/// executable and its bounds as they are.
pub proof fn lemma_step_wf(m: DaemonModel, event: DaemonEvent)
    requires
        m.wf(),
    ensures
        m.step(event).wf(),
        m.step(event).executable == m.executable,
        m.step(event).polls_allowed == m.polls_allowed,
{
}

/// Whatever is reported, in whatever order, the supervisor stays well
/// formed: it never polls more often than it is allowed.
pub proof fn lemma_run_wf(m: DaemonModel, events: Seq<DaemonEvent>)
    requires
        m.wf(),
    ensures
        m.run(events).wf(),
        m.run(events).polls <= m.polls_allowed,
        m.run(events).polls_allowed == m.polls_allowed,
    decreases events.len(),
{
    if events.len() > 0 {
        lemma_run_wf(m, events.drop_last());
        lemma_step_wf(m.run(events.drop_last()), events.last());
    }
}

/// Every report that the supervisor waits for brings it strictly nearer to
/// its end: a start ends after at most five reports and two per allowed
/// poll.
pub proof fn lemma_step_progress(m: DaemonModel, event: DaemonEvent)
    requires
        m.wf(),
        m.expects(event),
    ensures
        m.step(event).fuel() < m.fuel(),
        m.fuel() <= 2 * m.polls_allowed + 5,
{
}

/// Once the supervisor has ended, no report changes it.
pub proof fn lemma_finished_is_final(m: DaemonModel, events: Seq<DaemonEvent>)
    requires
        m.finished(),
    ensures
        m.run(events) == m,
    decreases events.len(),
{
    if events.len() > 0 {
        lemma_finished_is_final(m, events.drop_last());
    }
}

/// A daemon that answers the first probe is used as it is: that a daemon
/// runs is made sure at once, without looking for the executable or
/// launching anything, and whatever is reported afterwards, the supervisor
/// never comes to own a process that it did not own before.
pub proof fn lemma_responsive_daemon_is_not_owned(m: DaemonModel, events: Seq<DaemonEvent>)
    requires
        m.phase == DaemonPhase::Probing,
    ensures
        m.step(DaemonEvent::Probed(true)).phase == DaemonPhase::Settling,
        m.step(DaemonEvent::Probed(true)).ensured() == Some(Ok::<(), HarnessError>(())),
        m.step(DaemonEvent::Probed(true)).run(events).owns_process == m.owns_process,
        ({
            let phase = m.step(DaemonEvent::Probed(true)).run(events).phase;
            phase == DaemonPhase::Settling || phase == DaemonPhase::Provisioning || phase
                == DaemonPhase::Running
        }),
    decreases events.len(),
{
    if events.len() > 0 {
        lemma_responsive_daemon_is_not_owned(m, events.drop_last());
    }
}

/// Where no daemon answers and the executable does not exist, the start
/// fails with `ExecutableNotFound`. Nothing was launched: the supervisor
/// owns no more than before, the action it names is to abort, and no later
/// report brings it to launch anything.
pub proof fn lemma_missing_executable_fails(m: DaemonModel, later: Seq<DaemonEvent>)
    requires
        m.phase == DaemonPhase::Probing,
    ensures
        ({
            let after = m.step(DaemonEvent::Probed(false)).step(DaemonEvent::Located(false));
            &&& after.phase == DaemonPhase::Failed(HarnessError::ExecutableNotFound)
            &&& after.outcome() == Some(Err::<(), HarnessError>(HarnessError::ExecutableNotFound))
            &&& after.action() == DaemonAction::Abort(HarnessError::ExecutableNotFound)
            &&& after.owns_process == m.owns_process
            &&& after.run(later) == after
        }),
{
    let after = m.step(DaemonEvent::Probed(false)).step(DaemonEvent::Located(false));
    lemma_finished_is_final(after, later);
}

/// The supervisor comes to launch only from having found the executable,
/// and comes to own a process only from a launch that started one.
pub proof fn lemma_launch_needs_executable(m: DaemonModel, event: DaemonEvent)
    ensures
        m.step(event).phase == DaemonPhase::Launching && m.phase != DaemonPhase::Launching ==> m.phase
            == DaemonPhase::Locating && event == DaemonEvent::Located(true),
        m.step(event).owns_process && !m.owns_process ==> m.phase == DaemonPhase::Launching && event
            == DaemonEvent::Launched(true),
{
}

/// A launched daemon that never answers does not end the start: after the
/// last allowed poll the supervisor notes the timeout as a warning and goes
/// on to settle.
pub proof fn lemma_timeout_is_tolerated(m: DaemonModel)
    requires
        m.wf(),
        m.phase == DaemonPhase::Polling,
        m.polls + 1 == m.polls_allowed,
    ensures
        ({
            let after = m.step(DaemonEvent::Probed(false));
            &&& after.phase == DaemonPhase::Settling
            &&& after.timed_out
            &&& after.warnings().contains(HarnessError::DaemonStartTimeout)
            &&& HarnessError::DaemonStartTimeout.tolerated()
            &&& after.ensured() == Some(Ok::<(), HarnessError>(()))
            &&& after.outcome() is None
        }),
{
    let after = m.step(DaemonEvent::Probed(false));
    assert(after.warnings()[0] == HarnessError::DaemonStartTimeout);
}

/// A launched daemon is polled as often as is allowed and no more: while
/// it has been silent for fewer rounds, the next wait is due, and when it
/// has been silent for all of them, the timeout is noted and the start goes
/// on to settle.
pub proof fn lemma_silent_daemon_is_polled_to_the_bound(m: DaemonModel, polls: nat)
    requires
        m.wf(),
        m.phase == DaemonPhase::Launching,
        0 < m.polls_allowed,
        polls <= m.polls_allowed,
    ensures
        ({
            let after = m.step(DaemonEvent::Launched(true)).after_silent_polls(polls);
            &&& after.wf()
            &&& after.polls_allowed == m.polls_allowed
            &&& after.poll_interval_secs == m.poll_interval_secs
            &&& after.owns_process
            &&& after.polls == polls
            &&& polls < m.polls_allowed ==> after.phase == DaemonPhase::Waiting && after.action()
                == DaemonAction::Wait(m.poll_interval_secs as u64) && after.timed_out == m.timed_out
            &&& polls == m.polls_allowed ==> after.phase == DaemonPhase::Settling && after.timed_out
                && after.ensured() == Some(Ok::<(), HarnessError>(()))
        }),
    decreases polls,
{
    if polls > 0 {
        lemma_silent_daemon_is_polled_to_the_bound(m, (polls - 1) as nat);
        let before = m.step(DaemonEvent::Launched(true)).after_silent_polls((polls - 1) as nat);
        let waited = before.step(DaemonEvent::Waited);
        assert(waited.phase == DaemonPhase::Polling);
    }
}

/// A start never fails over its wallet: once wallet bootstrap has ended,
/// well or not, the daemon counts as running.
pub proof fn lemma_wallet_failure_is_tolerated(m: DaemonModel, usable: bool)
    requires
        m.phase == DaemonPhase::Provisioning,
    ensures
        m.step(DaemonEvent::WalletFinished(usable)).outcome() == Some(Ok::<(), HarnessError>(())),
        !usable ==> m.step(DaemonEvent::WalletFinished(usable)).warnings().contains(
            HarnessError::WalletSetupFailed,
        ),
{
    let after = m.step(DaemonEvent::WalletFinished(usable));
    if !usable {
        let last = after.warnings().len() - 1;
        assert(after.warnings()[last] == HarnessError::WalletSetupFailed);
    }
}

/// Stopping twice is stopping once.
pub proof fn lemma_stop_idempotent(m: DaemonModel)
    ensures
        m.stopped().stopped() == m.stopped(),
        !m.stopped().owns_process,
        !m.owns_process ==> m.stopped() == m,
{
}

/// The state machine that supervises the chain daemon.
pub struct DaemonSupervisor {
    executable: String,
    polls_allowed: u32,
    poll_interval_secs: u64,
    settle_secs: u64,
    phase: DaemonPhase,
    polls: u32,
    owns_process: bool,
    timed_out: bool,
    wallet_ready: Option<bool>,
}

impl View for DaemonSupervisor {
    type V = DaemonModel;

    closed spec fn view(&self) -> DaemonModel {
        DaemonModel {
            executable: self.executable@,
            polls_allowed: self.polls_allowed as nat,
            poll_interval_secs: self.poll_interval_secs as nat,
            settle_secs: self.settle_secs as nat,
            phase: self.phase,
            polls: self.polls as nat,
            owns_process: self.owns_process,
            timed_out: self.timed_out,
            wallet_ready: self.wallet_ready,
        }
    }
}

impl DaemonSupervisor {
    /// A supervisor before its first action, for the executable at the
    /// given path and with the bounds of `policy`.
    pub fn new(executable: String, policy: &RetryPolicy) -> (s: DaemonSupervisor)
        ensures
            s@ == DaemonModel::start(executable@, *policy, false),
            s@.wf(),
    {
        DaemonSupervisor {
            executable,
            polls_allowed: policy.readiness_polls,
            poll_interval_secs: policy.poll_interval_secs,
            settle_secs: policy.settle_secs,
            phase: DaemonPhase::Probing,
            polls: 0,
            owns_process: false,
            timed_out: false,
            wallet_ready: None,
        }
    }

    /// Begins a new start for the executable at the given path, keeping a
    /// process that is owned from an earlier one.
    pub fn restart(&mut self, executable: String, policy: &RetryPolicy)
        ensures
            final(self)@ == DaemonModel::start(executable@, *policy, old(self)@.owns_process),
            final(self)@.wf(),
    {
        self.executable = executable;
        self.polls_allowed = policy.readiness_polls;
        self.poll_interval_secs = policy.poll_interval_secs;
        self.settle_secs = policy.settle_secs;
        self.phase = DaemonPhase::Probing;
        self.polls = 0;
        self.timed_out = false;
        self.wallet_ready = None;
    }

    /// The path of the executable that is looked for and launched.
    pub fn executable(&self) -> (path: &str)
        ensures
            path@ == self@.executable,
    {
        self.executable.as_str()
    }

    /// What the loop has to do next.
    pub fn action(&self) -> (a: DaemonAction)
        ensures
            a == self@.action(),
    {
        match self.phase {
            DaemonPhase::Probing => DaemonAction::Probe,
            DaemonPhase::Locating => DaemonAction::Locate,
            DaemonPhase::Launching => DaemonAction::Launch,
            DaemonPhase::Waiting => DaemonAction::Wait(self.poll_interval_secs),
            DaemonPhase::Polling => DaemonAction::Probe,
            DaemonPhase::Settling => DaemonAction::Wait(self.settle_secs),
            DaemonPhase::Provisioning => DaemonAction::SetUpWallet,
            DaemonPhase::Running => DaemonAction::Finish,
            DaemonPhase::Failed(e) => DaemonAction::Abort(e),
        }
    }

    /// Takes in a report and says what the loop has to do next.
    pub fn advance(&mut self, event: DaemonEvent) -> (a: DaemonAction)
        requires
            old(self)@.wf(),
        ensures
            final(self)@ == old(self)@.step(event),
            final(self)@.wf(),
            a == final(self)@.action(),
            old(self)@.expects(event) ==> final(self)@.fuel() < old(self)@.fuel(),
    {
        match (self.phase, event) {
            (DaemonPhase::Probing, DaemonEvent::Probed(answered)) => {
                if answered {
                    self.phase = DaemonPhase::Settling;
                } else {
                    self.phase = DaemonPhase::Locating;
                }
            },
            (DaemonPhase::Locating, DaemonEvent::Located(exists)) => {
                if exists {
                    self.phase = DaemonPhase::Launching;
                } else {
                    self.phase = DaemonPhase::Failed(HarnessError::ExecutableNotFound);
                }
            },
            (DaemonPhase::Launching, DaemonEvent::Launched(started)) => {
                if !started {
                    self.phase = DaemonPhase::Failed(HarnessError::LaunchFailed);
                } else if self.polls_allowed == 0 {
                    self.owns_process = true;
                    self.timed_out = true;
                    self.phase = DaemonPhase::Settling;
                } else {
                    self.owns_process = true;
                    self.polls = 0;
                    self.phase = DaemonPhase::Waiting;
                }
            },
            (DaemonPhase::Waiting, DaemonEvent::Waited) => {
                self.phase = DaemonPhase::Polling;
            },
            (DaemonPhase::Polling, DaemonEvent::Probed(answered)) => {
                if answered {
                    self.phase = DaemonPhase::Settling;
                } else {
                    self.polls = self.polls + 1;
                    if self.polls < self.polls_allowed {
                        self.phase = DaemonPhase::Waiting;
                    } else {
                        self.timed_out = true;
                        self.phase = DaemonPhase::Settling;
                    }
                }
            },
            (DaemonPhase::Settling, DaemonEvent::Waited) => {
                self.phase = DaemonPhase::Provisioning;
            },
            (DaemonPhase::Provisioning, DaemonEvent::WalletFinished(usable)) => {
                self.wallet_ready = Some(usable);
                self.phase = DaemonPhase::Running;
            },
            _ => {},
        }
        self.action()
    }

    /// How making sure that a daemon runs ended, if it has.
    pub fn ensured(&self) -> (r: Option<Result<(), HarnessError>>)
        ensures
            r == self@.ensured(),
    {
        match self.phase {
            DaemonPhase::Settling => Some(Ok(())),
            DaemonPhase::Provisioning => Some(Ok(())),
            DaemonPhase::Running => Some(Ok(())),
            DaemonPhase::Failed(e) => Some(Err(e)),
            _ => None,
        }
    }

    /// How the start ended, if it has: with a daemon that can be used, or
    /// with the failure that ended it.
    pub fn outcome(&self) -> (r: Option<Result<(), HarnessError>>)
        ensures
            r == self@.outcome(),
    {
        match self.phase {
            DaemonPhase::Running => Some(Ok(())),
            DaemonPhase::Failed(e) => Some(Err(e)),
            _ => None,
        }
    }

    /// What the start leaves to be warned of: a daemon that did not answer
    /// in time, and a wallet that could not be set up.
    pub fn warnings(&self) -> (w: Vec<HarnessError>)
        ensures
            w@ == self@.warnings(),
    {
        let mut w: Vec<HarnessError> = Vec::new();
        if self.timed_out {
            w.push(HarnessError::DaemonStartTimeout);
        }
        match self.wallet_ready {
            Some(false) => {
                w.push(HarnessError::WalletSetupFailed);
            },
            _ => {},
        }
        assert(w@ =~= self@.warnings());
        w
    }

    /// Whether this supervisor launched a process that it has not stopped.
    pub fn owns_process(&self) -> (r: bool)
        ensures
            r == self@.owns_process,
    {
        self.owns_process
    }

    /// Gives up the process, if one is owned. Returns whether there is a
    /// process to terminate and to wait for: `true` exactly where one was
    /// owned. After the call none is, so a second call returns `false`.
    pub fn stop(&mut self) -> (terminate: bool)
        ensures
            terminate == old(self)@.owns_process,
            final(self)@ == old(self)@.stopped(),
            old(self)@.wf() ==> final(self)@.wf(),
    {
        let owned = self.owns_process;
        self.owns_process = false;
        owned
    }
}

} // verus!

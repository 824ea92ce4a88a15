//! Wallet bootstrap: the decisions of the create-or-load retry loop.
//!
//! The loop itself runs outside: it performs the action that the bootstrap
//! names and hands back what came of it. Here is the state machine that
//! says which action comes next.

use vstd::prelude::*;
use crate::bitcoin::policy::RetryPolicy;
use crate::error::HarnessError;
use crate::text::contains;
use crate::text::is_substring;

verus! {

/// The name of the wallet that bootstrap creates and loads.
pub const WALLET_NAME: &'static str = "default";

/// A failure to create the wallet whose message holds this text means that
/// the wallet is there already.
pub const ALREADY_EXISTS: &'static str = "already exists";

/// A failure to load the wallet whose message holds this text means that
/// the wallet is loaded already.
pub const ALREADY_LOADED: &'static str = "already loaded";

/// What is known of the wallet. It is inferred anew in every run from how
/// the daemon answers.
#[derive(Debug, Clone, Copy, PartialEq, Eq, Structural)]
pub enum WalletState {
    Absent,
    Created,
    Loaded,
}

/// How a request to the daemon ended: well, or with a failure and its
/// message.
#[derive(Debug, Clone, PartialEq, Eq)]
pub enum RpcOutcome {
    Success,
    Failure(String),
}

/// What the loop reports back to the bootstrap.
#[derive(Debug, Clone, PartialEq, Eq)]
pub enum WalletEvent {
    /// The request to create the wallet ended.
    CreateFinished(RpcOutcome),
    /// The request to load the wallet ended.
    LoadFinished(RpcOutcome),
    /// The pause is over.
    PauseElapsed,
}

/// Where the bootstrap stands.
#[derive(Debug, Clone, Copy, PartialEq, Eq, Structural)]
pub enum WalletPhase {
    /// The wallet is to be created.
    Creating,
    /// The wallet is to be loaded.
    Loading,
    /// An attempt failed and the pause before the next one is due.
    Pausing,
    /// The wallet is loaded.
    Ready,
    /// All attempts failed.
    Failed,
}

/// What the loop has to do next.
#[derive(Debug, Clone, Copy, PartialEq, Eq, Structural)]
pub enum WalletAction {
    /// Ask the daemon to create the wallet.
    CreateWallet,
    /// Ask the daemon to load the wallet.
    LoadWallet,
    /// Sleep for this many seconds.
    Pause(u64),
    /// Stop: the wallet is usable.
    Succeed,
    /// Stop: wallet setup failed.
    GiveUp,
}

impl RpcOutcome {
    /// Whether the request failed with a message that holds `marker`.
    pub open spec fn mentions(self, marker: Seq<char>) -> bool {
        match self {
            RpcOutcome::Failure(message) => is_substring(marker, message@),
            RpcOutcome::Success => false,
        }
    }

    /// Whether the request failed with a message that holds `marker`.
    pub fn failed_with(&self, marker: &str) -> (r: bool)
        ensures
            r == self.mentions(marker@),
    {
        match self {
            RpcOutcome::Failure(message) => contains(message.as_str(), marker),
            RpcOutcome::Success => false,
        }
    }

    /// Whether a create request that ended like this is a cause for a
    /// warning: it failed, and not because the wallet exists already.
    pub open spec fn suspect_create(self) -> bool {
        self is Failure && !self.mentions(ALREADY_EXISTS@)
    }

    /// Whether a load request that ended like this leaves the wallet
    /// loaded: it succeeded, or it failed because the wallet is loaded
    /// already.
    pub open spec fn wallet_loaded(self) -> bool {
        self is Success || self.mentions(ALREADY_LOADED@)
    }
}

/// The state of a bootstrap, as mathematics.
pub struct WalletModel {
    /// How many attempts are allowed.
    pub limit: nat,
    /// The pause after a failed attempt, in seconds.
    pub pause_secs: nat,
    /// How many attempts have failed.
    pub failed: nat,
    /// Where the bootstrap stands.
    pub phase: WalletPhase,
    /// What is known of the wallet.
    pub wallet: WalletState,
    /// How many create requests failed for an unexpected reason.
    pub warnings: nat,
}

impl WalletModel {
    /// The bootstrap before its first action. With no attempt allowed it
    /// has failed already.
    pub open spec fn start(limit: nat, pause_secs: nat) -> WalletModel {
        WalletModel {
            limit,
            pause_secs,
            failed: 0,
            phase: if limit == 0 {
                WalletPhase::Failed
            } else {
                WalletPhase::Creating
            },
            wallet: WalletState::Absent,
            warnings: 0,
        }
    }

    /// The invariant of a bootstrap: it never makes more attempts than are
    /// allowed, it has failed only when all of them failed, and it warns at
    /// most once per attempt.
    pub open spec fn wf(self) -> bool {
        &&& self.failed <= self.limit
        &&& self.phase == WalletPhase::Failed ==> self.failed == self.limit
        &&& (self.phase == WalletPhase::Creating || self.phase == WalletPhase::Loading || self.phase
            == WalletPhase::Pausing) ==> self.failed < self.limit
        &&& self.warnings <= self.failed + (if self.phase == WalletPhase::Creating {
            0nat
        } else {
            1nat
        })
        &&& self.phase == WalletPhase::Ready ==> self.wallet == WalletState::Loaded
    }

    /// Whether the bootstrap has ended.
    pub open spec fn finished(self) -> bool {
        self.phase == WalletPhase::Ready || self.phase == WalletPhase::Failed
    }

    /// Whether `event` is the report that the bootstrap waits for.
    pub open spec fn expects(self, event: WalletEvent) -> bool {
        match (self.phase, event) {
            (WalletPhase::Creating, WalletEvent::CreateFinished(_)) => true,
            (WalletPhase::Loading, WalletEvent::LoadFinished(_)) => true,
            (WalletPhase::Pausing, WalletEvent::PauseElapsed) => true,
            _ => false,
        }
    }

    /// The bootstrap after `event`.
    ///
    /// However the create request ends, the load request follows. A load
    /// that leaves the wallet loaded ends the bootstrap with success; any
    /// other load failure is followed by a pause, and the pause by the next
    /// attempt or, after the last one, by failure. A report that the
    /// bootstrap does not wait for changes nothing.
    pub open spec fn step(self, event: WalletEvent) -> WalletModel {
        match (self.phase, event) {
            (WalletPhase::Creating, WalletEvent::CreateFinished(outcome)) => WalletModel {
                phase: WalletPhase::Loading,
                wallet: if outcome.suspect_create() {
                    self.wallet
                } else {
                    WalletState::Created
                },
                warnings: if outcome.suspect_create() {
                    self.warnings + 1
                } else {
                    self.warnings
                },
                ..self
            },
            (WalletPhase::Loading, WalletEvent::LoadFinished(outcome)) => if outcome.wallet_loaded() {
                WalletModel { phase: WalletPhase::Ready, wallet: WalletState::Loaded, ..self }
            } else {
                WalletModel { phase: WalletPhase::Pausing, ..self }
            },
            (WalletPhase::Pausing, WalletEvent::PauseElapsed) => WalletModel {
                phase: if self.failed + 1 < self.limit {
                    WalletPhase::Creating
                } else {
                    WalletPhase::Failed
                },
                failed: self.failed + 1,
                ..self
            },
            _ => self,
        }
    }

    /// The bootstrap after a run of events, first to last.
    pub open spec fn run(self, events: Seq<WalletEvent>) -> WalletModel
        decreases events.len(),
    {
        if events.len() == 0 {
            self
        } else {
            self.run(events.drop_last()).step(events.last())
        }
    }

    /// The bootstrap after a run of whole attempts, each given by how its
    /// create request and its load request ended, and each followed by its
    /// pause.
    pub open spec fn after_attempts(self, attempts: Seq<(RpcOutcome, RpcOutcome)>) -> WalletModel
        decreases attempts.len(),
    {
        if attempts.len() == 0 {
            self
        } else {
            self.after_attempts(attempts.drop_last()).step(
                WalletEvent::CreateFinished(attempts.last().0),
            ).step(WalletEvent::LoadFinished(attempts.last().1)).step(WalletEvent::PauseElapsed)
        }
    }

    /// What the loop has to do next.
    pub open spec fn action(self) -> WalletAction {
        match self.phase {
            WalletPhase::Creating => WalletAction::CreateWallet,
            WalletPhase::Loading => WalletAction::LoadWallet,
            WalletPhase::Pausing => WalletAction::Pause(self.pause_secs as u64),
            WalletPhase::Ready => WalletAction::Succeed,
            WalletPhase::Failed => WalletAction::GiveUp,
        }
    }

    /// How the bootstrap ended, if it has.
    pub open spec fn outcome(self) -> Option<Result<(), HarnessError>> {
        match self.phase {
            WalletPhase::Ready => Some(Ok(())),
            WalletPhase::Failed => Some(Err(HarnessError::WalletSetupFailed)),
            _ => None,
        }
    }

    /// An upper bound on the reports that the bootstrap still waits for.
    pub open spec fn fuel(self) -> nat {
        match self.phase {
            WalletPhase::Creating => (3 * (self.limit - self.failed)) as nat,
            WalletPhase::Loading => (3 * (self.limit - self.failed) - 1) as nat,
            WalletPhase::Pausing => (3 * (self.limit - self.failed) - 2) as nat,
            WalletPhase::Ready => 0,
            WalletPhase::Failed => 0,
        }
    }
}

/// A bootstrap is well formed from the start.
pub proof fn lemma_start_wf(limit: nat, pause_secs: nat)
    ensures
        WalletModel::start(limit, pause_secs).wf(),
        WalletModel::start(limit, pause_secs).failed == 0,
{
}

/// Every report keeps the bootstrap well formed, and leaves its bounds as
/// they are.
pub proof fn lemma_step_wf(m: WalletModel, event: WalletEvent)
    requires
        m.wf(),
    ensures
        m.step(event).wf(),
        m.step(event).limit == m.limit,
        m.step(event).pause_secs == m.pause_secs,
{
}

/// Whatever is reported, in whatever order, the bootstrap stays well
/// formed: it never exceeds its attempts.
pub proof fn lemma_run_wf(m: WalletModel, events: Seq<WalletEvent>)
    requires
        m.wf(),
    ensures
        m.run(events).wf(),
        m.run(events).limit == m.limit,
        m.run(events).failed <= m.limit,
    decreases events.len(),
{
    if events.len() > 0 {
        lemma_run_wf(m, events.drop_last());
        lemma_step_wf(m.run(events.drop_last()), events.last());
    }
}

/// Every report that the bootstrap waits for brings it strictly nearer to
/// its end, so a bootstrap with `limit` attempts ends after at most three
/// times `limit` such reports.
pub proof fn lemma_step_progress(m: WalletModel, event: WalletEvent)
    requires
        m.wf(),
        m.expects(event),
    ensures
        m.step(event).fuel() < m.fuel(),
        m.fuel() <= 3 * m.limit,
{
}

/// Once the bootstrap has ended, no report changes it.
pub proof fn lemma_finished_is_final(m: WalletModel, event: WalletEvent)
    requires
        m.finished(),
    ensures
        m.step(event) == m,
{
}

/// However the create request ends, the attempt goes on to load the
/// wallet. A failure other than that the wallet exists already is counted
/// as a warning and nothing more.
pub proof fn lemma_create_never_ends_the_attempt(m: WalletModel, outcome: RpcOutcome)
    requires
        m.phase == WalletPhase::Creating,
    ensures
        ({
            let after = m.step(WalletEvent::CreateFinished(outcome));
            &&& after.phase == WalletPhase::Loading
            &&& after.action() == WalletAction::LoadWallet
            &&& after.failed == m.failed
            &&& after.warnings == m.warnings + (if outcome.suspect_create() {
                1nat
            } else {
                0nat
            })
        }),
{
}

/// A load request that fails, and not because the wallet is loaded
/// already, is followed by the pause, and the pause by the next attempt or,
/// where this was the last one, by failure.
pub proof fn lemma_failed_load_pauses_and_retries(m: WalletModel, outcome: RpcOutcome)
    requires
        m.wf(),
        m.phase == WalletPhase::Loading,
        !outcome.wallet_loaded(),
    ensures
        ({
            let paused = m.step(WalletEvent::LoadFinished(outcome));
            let after = paused.step(WalletEvent::PauseElapsed);
            &&& paused.phase == WalletPhase::Pausing
            &&& paused.action() == WalletAction::Pause(m.pause_secs as u64)
            &&& after.failed == m.failed + 1
            &&& m.failed + 1 < m.limit ==> after.action() == WalletAction::CreateWallet
            &&& m.failed + 1 == m.limit ==> after.action() == WalletAction::GiveUp
        }),
{
}

/// A wallet that exists already is no obstacle: where the create request
/// fails with a message that says so and the load request then succeeds,
/// the bootstrap succeeds in that very attempt. It counts no further failed
/// attempt, so attempts are left over, and it raises no warning.
pub proof fn lemma_existing_wallet_loads(m: WalletModel, message: String)
    requires
        m.wf(),
        m.phase == WalletPhase::Creating,
        is_substring(ALREADY_EXISTS@, message@),
    ensures
        ({
            let after = m.step(WalletEvent::CreateFinished(RpcOutcome::Failure(message))).step(
                WalletEvent::LoadFinished(RpcOutcome::Success),
            );
            &&& after.phase == WalletPhase::Ready
            &&& after.outcome() == Some(Ok::<(), HarnessError>(()))
            &&& after.action() == WalletAction::Succeed
            &&& after.failed == m.failed
            &&& after.failed < after.limit
            &&& after.warnings == m.warnings
            &&& after.wallet == WalletState::Loaded
        }),
{
}

/// The same from the start: a bootstrap that is allowed any attempt at all
/// succeeds in its first one, with no attempt failed.
pub proof fn lemma_existing_wallet_loads_at_once(limit: nat, pause_secs: nat, message: String)
    requires
        limit > 0,
        is_substring(ALREADY_EXISTS@, message@),
    ensures
        ({
            let after = WalletModel::start(limit, pause_secs).run(
                seq![
                    WalletEvent::CreateFinished(RpcOutcome::Failure(message)),
                    WalletEvent::LoadFinished(RpcOutcome::Success),
                ],
            );
            &&& after.phase == WalletPhase::Ready
            &&& after.failed == 0
            &&& after.failed < limit
        }),
{
    let start = WalletModel::start(limit, pause_secs);
    let events = seq![
        WalletEvent::CreateFinished(RpcOutcome::Failure(message)),
        WalletEvent::LoadFinished(RpcOutcome::Success),
    ];
    assert(start.run(events.drop_last().drop_last()) == start);
    assert(start.run(events.drop_last()) == start.step(events.drop_last().last()));
    lemma_existing_wallet_loads(start, message);
}

/// A wallet that is loaded already is success at once: where the load
/// request fails with a message that says so, the bootstrap ends with
/// success on that report, without pause and without a further attempt.
pub proof fn lemma_loaded_wallet_succeeds(m: WalletModel, message: String)
    requires
        m.phase == WalletPhase::Loading,
        is_substring(ALREADY_LOADED@, message@),
    ensures
        ({
            let after = m.step(WalletEvent::LoadFinished(RpcOutcome::Failure(message)));
            &&& after.phase == WalletPhase::Ready
            &&& after.outcome() == Some(Ok::<(), HarnessError>(()))
            &&& after.action() == WalletAction::Succeed
            &&& after.failed == m.failed
            &&& after.wallet == WalletState::Loaded
        }),
{
}

/// Attempts whose load requests all fail are counted one by one: while
/// fewer have failed than are allowed, the bootstrap goes on to create
/// again, and when as many have failed as are allowed, it has failed with
/// `WalletSetupFailed`, whatever came of the create requests.
pub proof fn lemma_failed_attempts_are_counted(
    limit: nat,
    pause_secs: nat,
    attempts: Seq<(RpcOutcome, RpcOutcome)>,
)
    requires
        attempts.len() <= limit,
        forall|i: int| 0 <= i < attempts.len() ==> !(#[trigger] attempts[i]).1.wallet_loaded(),
    ensures
        ({
            let after = WalletModel::start(limit, pause_secs).after_attempts(attempts);
            &&& after.wf()
            &&& after.limit == limit
            &&& after.failed == attempts.len()
            &&& attempts.len() < limit ==> after.phase == WalletPhase::Creating && after.outcome()
                is None
            &&& attempts.len() == limit ==> after.outcome() == Some(
                Err::<(), HarnessError>(HarnessError::WalletSetupFailed),
            )
        }),
    decreases attempts.len(),
{
    if attempts.len() > 0 {
        let earlier = attempts.drop_last();
        assert forall|i: int| 0 <= i < earlier.len() implies !(#[trigger] earlier[i]).1.wallet_loaded() by {
            assert(earlier[i] == attempts[i]);
        }
        lemma_failed_attempts_are_counted(limit, pause_secs, earlier);
        let before = WalletModel::start(limit, pause_secs).after_attempts(earlier);
        let last = attempts[attempts.len() - 1];
        assert(!last.1.wallet_loaded());
        let created = before.step(WalletEvent::CreateFinished(last.0));
        let loaded = created.step(WalletEvent::LoadFinished(last.1));
        assert(loaded.phase == WalletPhase::Pausing);
    }
}

/// The bootstrap fails only after every allowed attempt has failed.
pub proof fn lemma_failure_exhausts_attempts(m: WalletModel)
    requires
        m.wf(),
        m.outcome() == Some(Err::<(), HarnessError>(HarnessError::WalletSetupFailed)),
    ensures
        m.failed == m.limit,
{
}

/// The state machine of wallet bootstrap.
pub struct WalletBootstrap {
    limit: u32,
    pause_secs: u64,
    failed: u32,
    phase: WalletPhase,
    wallet: WalletState,
    warnings: u32,
}

impl View for WalletBootstrap {
    type V = WalletModel;

    closed spec fn view(&self) -> WalletModel {
        WalletModel {
            limit: self.limit as nat,
            pause_secs: self.pause_secs as nat,
            failed: self.failed as nat,
            phase: self.phase,
            wallet: self.wallet,
            warnings: self.warnings as nat,
        }
    }
}

impl WalletBootstrap {
    /// A bootstrap before its first action, with the attempts and the pause
    /// of `policy`.
    pub fn new(policy: &RetryPolicy) -> (b: WalletBootstrap)
        ensures
            b@ == WalletModel::start(policy.wallet_attempts as nat, policy.wallet_pause_secs as nat),
            b@.wf(),
    {
        WalletBootstrap {
            limit: policy.wallet_attempts,
            pause_secs: policy.wallet_pause_secs,
            failed: 0,
            phase: if policy.wallet_attempts == 0 {
                WalletPhase::Failed
            } else {
                WalletPhase::Creating
            },
            wallet: WalletState::Absent,
            warnings: 0,
        }
    }

    /// What the loop has to do next.
    pub fn action(&self) -> (a: WalletAction)
        ensures
            a == self@.action(),
    {
        match self.phase {
            WalletPhase::Creating => WalletAction::CreateWallet,
            WalletPhase::Loading => WalletAction::LoadWallet,
            WalletPhase::Pausing => WalletAction::Pause(self.pause_secs),
            WalletPhase::Ready => WalletAction::Succeed,
            WalletPhase::Failed => WalletAction::GiveUp,
        }
    }

    /// Takes in a report and says what the loop has to do next.
    pub fn advance(&mut self, event: &WalletEvent) -> (a: WalletAction)
        requires
            old(self)@.wf(),
        ensures
            final(self)@ == old(self)@.step(*event),
            final(self)@.wf(),
            a == final(self)@.action(),
            old(self)@.expects(*event) ==> final(self)@.fuel() < old(self)@.fuel(),
    {
        match (self.phase, event) {
            (WalletPhase::Creating, WalletEvent::CreateFinished(outcome)) => {
                let benign = match outcome {
                    RpcOutcome::Success => true,
                    RpcOutcome::Failure(_) => outcome.failed_with(ALREADY_EXISTS),
                };
                if benign {
                    self.wallet = WalletState::Created;
                } else {
                    self.warnings = self.warnings + 1;
                }
                self.phase = WalletPhase::Loading;
            },
            (WalletPhase::Loading, WalletEvent::LoadFinished(outcome)) => {
                let loaded = match outcome {
                    RpcOutcome::Success => true,
                    RpcOutcome::Failure(_) => outcome.failed_with(ALREADY_LOADED),
                };
                if loaded {
                    self.wallet = WalletState::Loaded;
                    self.phase = WalletPhase::Ready;
                } else {
                    self.phase = WalletPhase::Pausing;
                }
            },
            (WalletPhase::Pausing, WalletEvent::PauseElapsed) => {
                self.failed = self.failed + 1;
                if self.failed < self.limit {
                    self.phase = WalletPhase::Creating;
                } else {
                    self.phase = WalletPhase::Failed;
                }
            },
            _ => {},
        }
        self.action()
    }

    /// How the bootstrap ended, if it has: with a usable wallet, or with
    /// `WalletSetupFailed` after the last attempt.
    pub fn outcome(&self) -> (r: Option<Result<(), HarnessError>>)
        ensures
            r == self@.outcome(),
    {
        match self.phase {
            WalletPhase::Ready => Some(Ok(())),
            WalletPhase::Failed => Some(Err(HarnessError::WalletSetupFailed)),
            _ => None,
        }
    }

    /// Whether the wallet is loaded.
    pub fn is_ready(&self) -> (r: bool)
        ensures
            r == (self@.phase == WalletPhase::Ready),
    {
        self.phase == WalletPhase::Ready
    }

    /// What is known of the wallet.
    pub fn wallet_state(&self) -> (s: WalletState)
        ensures
            s == self@.wallet,
    {
        self.wallet
    }

    /// How many attempts have failed.
    pub fn failed_attempts(&self) -> (n: u32)
        ensures
            n == self@.failed,
    {
        self.failed
    }

    /// How many create requests failed for an unexpected reason.
    pub fn warnings(&self) -> (n: u32)
        ensures
            n == self@.warnings,
    {
        self.warnings
    }
}

} // verus!

use regtest_harness::bitcoin::daemon::DaemonAction;
use regtest_harness::bitcoin::daemon::DaemonEvent;
use regtest_harness::bitcoin::daemon::DaemonSupervisor;
use regtest_harness::bitcoin::daemon::DEFAULT_EXECUTABLE;
use regtest_harness::bitcoin::daemon::REGTEST_FLAG;
use regtest_harness::bitcoin::policy::RetryPolicy;
use regtest_harness::error::HarnessError;

fn supervisor() -> DaemonSupervisor {
    DaemonSupervisor::new("/snap/bin/bitcoin-core.daemon".to_string(), &RetryPolicy::standard())
}

#[test]
fn daemon_constants() {
    assert_eq!(DEFAULT_EXECUTABLE, r"C:\Program Files\Bitcoin\daemon\bitcoind.exe");
    assert_eq!(REGTEST_FLAG, "-regtest");
}

#[test]
fn supervisor_begins_by_probing() {
    let s = supervisor();
    assert_eq!(s.action(), DaemonAction::Probe);
    assert_eq!(s.executable(), "/snap/bin/bitcoin-core.daemon");
    assert!(!s.owns_process());
    assert_eq!(s.outcome(), None);
    assert_eq!(s.warnings(), vec![]);
}

#[test]
fn unreachable_daemon_without_executable_fails() {
    let mut s = supervisor();
    assert_eq!(s.advance(DaemonEvent::Probed(false)), DaemonAction::Locate);
    assert_eq!(
        s.advance(DaemonEvent::Located(false)),
        DaemonAction::Abort(HarnessError::ExecutableNotFound)
    );
    assert_eq!(s.outcome(), Some(Err(HarnessError::ExecutableNotFound)));
    assert_eq!(s.ensured(), Some(Err(HarnessError::ExecutableNotFound)));
    assert!(!s.owns_process());
    assert_eq!(
        s.advance(DaemonEvent::Launched(true)),
        DaemonAction::Abort(HarnessError::ExecutableNotFound)
    );
    assert!(!s.owns_process());
    assert!(!s.stop());
}

#[test]
fn responsive_daemon_is_used_and_not_owned() {
    let mut s = supervisor();
    assert_eq!(s.ensured(), None);
    assert_eq!(s.advance(DaemonEvent::Probed(true)), DaemonAction::Wait(2));
    assert_eq!(s.ensured(), Some(Ok(())));
    assert_eq!(s.outcome(), None);
    assert_eq!(s.advance(DaemonEvent::Waited), DaemonAction::SetUpWallet);
    assert_eq!(s.advance(DaemonEvent::WalletFinished(true)), DaemonAction::Finish);
    assert_eq!(s.outcome(), Some(Ok(())));
    assert_eq!(s.warnings(), vec![]);
    assert!(!s.owns_process());
    assert!(!s.stop());
}

#[test]
fn launched_daemon_is_polled_until_it_answers() {
    let mut s = supervisor();
    s.advance(DaemonEvent::Probed(false));
    assert_eq!(s.advance(DaemonEvent::Located(true)), DaemonAction::Launch);
    assert!(!s.owns_process());
    assert_eq!(s.advance(DaemonEvent::Launched(true)), DaemonAction::Wait(1));
    assert!(s.owns_process());
    assert_eq!(s.advance(DaemonEvent::Waited), DaemonAction::Probe);
    assert_eq!(s.advance(DaemonEvent::Probed(false)), DaemonAction::Wait(1));
    assert_eq!(s.advance(DaemonEvent::Waited), DaemonAction::Probe);
    assert_eq!(s.advance(DaemonEvent::Probed(true)), DaemonAction::Wait(2));
    assert_eq!(s.advance(DaemonEvent::Waited), DaemonAction::SetUpWallet);
    assert_eq!(s.advance(DaemonEvent::WalletFinished(true)), DaemonAction::Finish);
    assert_eq!(s.outcome(), Some(Ok(())));
    assert_eq!(s.warnings(), vec![]);
    assert!(s.owns_process());
}

#[test]
fn launch_that_fails_ends_the_start() {
    let mut s = supervisor();
    s.advance(DaemonEvent::Probed(false));
    s.advance(DaemonEvent::Located(true));
    assert_eq!(
        s.advance(DaemonEvent::Launched(false)),
        DaemonAction::Abort(HarnessError::LaunchFailed)
    );
    assert!(!s.owns_process());
    assert_eq!(s.outcome(), Some(Err(HarnessError::LaunchFailed)));
}

#[test]
fn silent_daemon_times_out_after_thirty_polls_and_start_goes_on() {
    let mut s = supervisor();
    s.advance(DaemonEvent::Probed(false));
    s.advance(DaemonEvent::Located(true));
    let mut action = s.advance(DaemonEvent::Launched(true));
    let mut waits = 0;
    let mut probes = 0;
    loop {
        action = match action {
            DaemonAction::Wait(1) => {
                waits += 1;
                s.advance(DaemonEvent::Waited)
            }
            DaemonAction::Probe => {
                probes += 1;
                s.advance(DaemonEvent::Probed(false))
            }
            other => {
                assert_eq!(other, DaemonAction::Wait(2));
                break;
            }
        };
    }
    assert_eq!((waits, probes), (30, 30));
    assert_eq!(s.warnings(), vec![HarnessError::DaemonStartTimeout]);
    assert!(HarnessError::DaemonStartTimeout.is_tolerated());
    assert_eq!(s.outcome(), None);
    assert_eq!(s.advance(DaemonEvent::Waited), DaemonAction::SetUpWallet);
    assert_eq!(s.advance(DaemonEvent::WalletFinished(false)), DaemonAction::Finish);
    assert_eq!(s.outcome(), Some(Ok(())));
    assert_eq!(
        s.warnings(),
        vec![HarnessError::DaemonStartTimeout, HarnessError::WalletSetupFailed]
    );
    assert!(s.owns_process());
}

#[test]
fn wallet_failure_does_not_fail_the_start() {
    let mut s = supervisor();
    s.advance(DaemonEvent::Probed(true));
    s.advance(DaemonEvent::Waited);
    assert_eq!(s.advance(DaemonEvent::WalletFinished(false)), DaemonAction::Finish);
    assert_eq!(s.outcome(), Some(Ok(())));
    assert_eq!(s.warnings(), vec![HarnessError::WalletSetupFailed]);
}

#[test]
fn stop_gives_up_the_process_once() {
    let mut s = supervisor();
    s.advance(DaemonEvent::Probed(false));
    s.advance(DaemonEvent::Located(true));
    s.advance(DaemonEvent::Launched(true));
    assert!(s.owns_process());
    assert!(s.stop());
    assert!(!s.owns_process());
    assert!(!s.stop());
    assert!(!s.owns_process());
}

#[test]
fn restart_keeps_an_owned_process() {
    let mut s = supervisor();
    s.advance(DaemonEvent::Probed(false));
    s.advance(DaemonEvent::Located(true));
    s.advance(DaemonEvent::Launched(true));
    s.restart("/usr/bin/bitcoind".to_string(), &RetryPolicy::standard());
    assert_eq!(s.action(), DaemonAction::Probe);
    assert_eq!(s.executable(), "/usr/bin/bitcoind");
    assert!(s.owns_process());
    assert_eq!(s.outcome(), None);
}

#[test]
fn reports_out_of_turn_are_ignored() {
    let mut s = supervisor();
    assert_eq!(s.advance(DaemonEvent::Launched(true)), DaemonAction::Probe);
    assert!(!s.owns_process());
    assert_eq!(s.advance(DaemonEvent::Located(true)), DaemonAction::Probe);
    assert_eq!(s.advance(DaemonEvent::WalletFinished(true)), DaemonAction::Probe);
    assert_eq!(s.advance(DaemonEvent::Waited), DaemonAction::Probe);
}

#[test]
fn supervisor_without_polls_settles_at_once() {
    let policy = RetryPolicy { readiness_polls: 0, settle_secs: 7, ..RetryPolicy::standard() };
    let mut s = DaemonSupervisor::new("bitcoind".to_string(), &policy);
    s.advance(DaemonEvent::Probed(false));
    s.advance(DaemonEvent::Located(true));
    assert_eq!(s.advance(DaemonEvent::Launched(true)), DaemonAction::Wait(7));
    assert_eq!(s.warnings(), vec![HarnessError::DaemonStartTimeout]);
    assert!(s.owns_process());
}

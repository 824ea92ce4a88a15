//! How long the harness waits and how often it tries again.

use vstd::prelude::*;

verus! {

/// The bounds on waiting and retrying. They are configuration: a caller may
/// set any of them.
#[derive(Debug, Clone, Copy, PartialEq, Eq, Structural)]
pub struct RetryPolicy {
    /// How many times wallet bootstrap tries to create and load the wallet.
    pub wallet_attempts: u32,
    /// The pause after a failed bootstrap attempt, in seconds.
    pub wallet_pause_secs: u64,
    /// How many times a launched daemon is polled for readiness.
    pub readiness_polls: u32,
    /// The wait before each readiness poll, in seconds.
    pub poll_interval_secs: u64,
    /// The wait between a ready daemon and wallet bootstrap, in seconds.
    pub settle_secs: u64,
}

impl RetryPolicy {
    /// The standard bounds.
    pub open spec fn standard_spec() -> RetryPolicy {
        RetryPolicy {
            wallet_attempts: 5,
            wallet_pause_secs: 2,
            readiness_polls: 30,
            poll_interval_secs: 1,
            settle_secs: 2,
        }
    }

    /// The standard bounds: five wallet attempts two seconds apart, thirty
    /// readiness polls one second apart, and two seconds to settle.
    pub fn standard() -> (p: RetryPolicy)
        ensures
            p == RetryPolicy::standard_spec(),
    {
        RetryPolicy {
            wallet_attempts: 5,
            wallet_pause_secs: 2,
            readiness_polls: 30,
            poll_interval_secs: 1,
            settle_secs: 2,
        }
    }
}

impl Default for RetryPolicy {
    fn default() -> (p: RetryPolicy)
        ensures
            p == RetryPolicy::standard_spec(),
    {
        RetryPolicy::standard()
    }
}

} // verus!

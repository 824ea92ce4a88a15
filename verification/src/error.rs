//! The failures that the harness tells apart.

use vstd::prelude::*;
use vstd::string::*;

verus! {

/// A field that a peer's status document must carry.
#[derive(Debug, Clone, Copy, PartialEq, Eq, Structural)]
pub enum InfoField {
    /// The peer's identity.
    Id,
    /// The peer's display name.
    Alias,
}

/// Everything that can go wrong in a run.
#[derive(Debug, Clone, Copy, PartialEq, Eq, Structural)]
pub enum HarnessError {
    /// The daemon is not running and its executable does not exist.
    ExecutableNotFound,
    /// The executable exists but could not be launched.
    LaunchFailed,
    /// The launched daemon did not answer within the bounded number of polls.
    DaemonStartTimeout,
    /// No wallet could be loaded within the bounded number of attempts.
    WalletSetupFailed,
    /// A request failed in transport or protocol.
    RpcError,
    /// An address is malformed or belongs to another network.
    InvalidAddress,
    /// An amount is zero or cannot be expressed in the daemon's unit.
    InvalidAmount,
    /// A peer identity is no public key.
    InvalidPeerId,
    /// A status document lacks a field.
    MissingField(InfoField),
    /// An operation was asked of a peer before the control channel stood.
    NotConnected,
    /// The peer already holds an invoice under the label.
    DuplicateLabel,
    /// The peer's reply carries no address.
    NoAddressReturned,
}

impl HarnessError {
    /// Whether the failure never ends a run. That holds of a slow daemon
    /// start alone: the daemon may still come up before it is first needed.
    pub open spec fn tolerated(self) -> bool {
        self == HarnessError::DaemonStartTimeout
    }

    /// Whether the failure never ends a run.
    pub fn is_tolerated(&self) -> (r: bool)
        ensures
            r == self.tolerated(),
    {
        match self {
            HarnessError::DaemonStartTimeout => true,
            _ => false,
        }
    }

    /// Whether the failure was found locally, before any request was sent.
    pub open spec fn local_validation(self) -> bool {
        self == HarnessError::InvalidAddress || self == HarnessError::InvalidAmount || self
            == HarnessError::InvalidPeerId
    }

    /// Whether the failure was found locally, before any request was sent.
    pub fn is_local_validation(&self) -> (r: bool)
        ensures
            r == self.local_validation(),
    {
        match self {
            HarnessError::InvalidAddress => true,
            HarnessError::InvalidAmount => true,
            HarnessError::InvalidPeerId => true,
            _ => false,
        }
    }

    /// The text of the failure, for a log line or a report.
    pub open spec fn text(self) -> Seq<char> {
        match self {
            HarnessError::ExecutableNotFound => "daemon executable not found"@,
            HarnessError::LaunchFailed => "daemon could not be launched"@,
            HarnessError::DaemonStartTimeout => "daemon did not become ready in time"@,
            HarnessError::WalletSetupFailed => "failed to set up wallet after multiple attempts"@,
            HarnessError::RpcError => "request failed"@,
            HarnessError::InvalidAddress => "address is not valid on the configured network"@,
            HarnessError::InvalidAmount => "amount is not a positive amount"@,
            HarnessError::InvalidPeerId => "peer identity is not a public key"@,
            HarnessError::MissingField(InfoField::Id) => "node id not found"@,
            HarnessError::MissingField(InfoField::Alias) => "node alias not found"@,
            HarnessError::NotConnected => "peer is not connected"@,
            HarnessError::DuplicateLabel => "invoice label is already in use"@,
            HarnessError::NoAddressReturned => "no address in the peer's reply"@,
        }
    }

    /// The text of the failure, for a log line or a report.
    pub fn message(&self) -> (s: String)
        ensures
            s@ == self.text(),
    {
        match self {
            HarnessError::ExecutableNotFound => "daemon executable not found".to_owned(),
            HarnessError::LaunchFailed => "daemon could not be launched".to_owned(),
            HarnessError::DaemonStartTimeout => "daemon did not become ready in time".to_owned(),
            HarnessError::WalletSetupFailed => "failed to set up wallet after multiple attempts".to_owned(),
            HarnessError::RpcError => "request failed".to_owned(),
            HarnessError::InvalidAddress => "address is not valid on the configured network".to_owned(),
            HarnessError::InvalidAmount => "amount is not a positive amount".to_owned(),
            HarnessError::InvalidPeerId => "peer identity is not a public key".to_owned(),
            HarnessError::MissingField(InfoField::Id) => "node id not found".to_owned(),
            HarnessError::MissingField(InfoField::Alias) => "node alias not found".to_owned(),
            HarnessError::NotConnected => "peer is not connected".to_owned(),
            HarnessError::DuplicateLabel => "invoice label is already in use".to_owned(),
            HarnessError::NoAddressReturned => "no address in the peer's reply".to_owned(),
        }
    }
}

/// The report of a failed request: the operation, then what went wrong.
pub open spec fn failure_report(operation: Seq<char>, message: Seq<char>) -> Seq<char> {
    operation + ": "@ + message
}

/// The report of a failed request. It names the operation and keeps the
/// underlying message, so that a reader can tell a daemon that cannot be
/// reached from a request that it refused.
pub fn describe_failure(operation: &str, message: &str) -> (report: String)
    ensures
        report@ == failure_report(operation@, message@),
{
    let mut report = operation.to_owned();
    report.append(": ");
    report.append(message);
    report
}

} // verus!

//! The chain client: its configuration and the requests it sends to the
//! daemon, each validated before it is sent.

use std::str::FromStr;
use vstd::prelude::*;
use vstd::string::*;
use bitcoincore_rpc::bitcoin::Address;
use bitcoincore_rpc::bitcoin::Network;
use crate::bitcoin::daemon::DaemonAction;
use crate::bitcoin::daemon::DaemonEvent;
use crate::bitcoin::daemon::DaemonModel;
use crate::bitcoin::daemon::DaemonSupervisor;
use crate::bitcoin::daemon::DEFAULT_EXECUTABLE;
use crate::bitcoin::policy::RetryPolicy;
use crate::bitcoin::wallet::WalletBootstrap;
use crate::bitcoin::wallet::WalletModel;
use crate::bitcoin::wallet::WalletPhase;
use crate::error::HarnessError;
use crate::text::decimal;
use crate::text::push_decimal;

verus! {

/// How the chain daemon is reached and, where it has to be started, found.
#[derive(Debug, Clone)]
pub struct BitcoinConfig {
    pub rpc_host: String,
    pub rpc_port: u16,
    pub rpc_user: String,
    pub rpc_password: String,
    pub network: String,
    pub bitcoin_path: Option<String>,
}

impl BitcoinConfig {
    /// The address of the daemon's request endpoint.
    pub open spec fn url(&self) -> Seq<char> {
        "http://"@ + self.rpc_host@ + ":"@ + decimal(self.rpc_port as nat)
    }

    /// The path of the daemon's executable: the configured one, or the
    /// platform default.
    pub open spec fn executable_path(&self) -> Seq<char> {
        match self.bitcoin_path {
            Some(path) => path@,
            None => DEFAULT_EXECUTABLE@,
        }
    }

    /// The address of the daemon's request endpoint.
    pub fn rpc_url(&self) -> (url: String)
        ensures
            url@ == self.url(),
    {
        let mut url = "http://".to_owned();
        url.append(self.rpc_host.as_str());
        url.append(":");
        push_decimal(&mut url, self.rpc_port as u64);
        url
    }

    /// The path of the daemon's executable: the configured one, or the
    /// platform default.
    pub fn executable(&self) -> (path: String)
        ensures
            path@ == self.executable_path(),
    {
        match &self.bitcoin_path {
            Some(path) => path.clone(),
            None => DEFAULT_EXECUTABLE.to_owned(),
        }
    }
}

/// Whether `address` is the text of a chain address of the network that
/// `network` names.
pub uninterp spec fn address_on_network(address: Seq<char>, network: Seq<char>) -> bool;

/// Trusted: `Address::require_network` of `bitcoin`, as `bitcoincore_rpc`
/// exports it, on an address and a network that `Address::from_str` and
/// `Network::from_str` read from their texts. The result says whether both
/// texts could be read and the address belongs to the network. Each of the
/// three calls depends on its arguments alone.
#[verifier::external_body]
fn address_valid_on(address: &str, network: &str) -> (ok: bool)
    ensures
        ok == address_on_network(address@, network@),
{
    match (Address::from_str(address), Network::from_str(network)) {
        (Ok(parsed), Ok(net)) => parsed.require_network(net).is_ok(),
        _ => false,
    }
}

/// A request to the chain daemon, ready to be sent.
#[derive(Debug, Clone, PartialEq, Eq)]
pub enum ChainRequest {
    /// Ask for the status of the chain.
    GetBlockchainInfo,
    /// Ask for a freshly derived address.
    GetNewAddress,
    /// Mine `blocks` blocks to `address`.
    GenerateToAddress { blocks: u64, address: String },
    /// Transfer `amount_sat`, in the daemon's smallest unit, to `address`.
    SendToAddress { address: String, amount_sat: u64 },
}

/// A request to the chain daemon, as mathematics.
pub enum ChainCall {
    GetBlockchainInfo,
    GetNewAddress,
    GenerateToAddress { blocks: u64, address: Seq<char> },
    SendToAddress { address: Seq<char>, amount_sat: u64 },
}

impl View for ChainRequest {
    type V = ChainCall;

    open spec fn view(&self) -> ChainCall {
        match self {
            ChainRequest::GetBlockchainInfo => ChainCall::GetBlockchainInfo,
            ChainRequest::GetNewAddress => ChainCall::GetNewAddress,
            ChainRequest::GenerateToAddress { blocks, address } => ChainCall::GenerateToAddress {
                blocks: *blocks,
                address: address@,
            },
            ChainRequest::SendToAddress { address, amount_sat } => ChainCall::SendToAddress {
                address: address@,
                amount_sat: *amount_sat,
            },
        }
    }
}

/// A planned request or the failure that stands in its way, as mathematics.
pub open spec fn planned(r: Result<ChainRequest, HarnessError>) -> Result<ChainCall, HarnessError> {
    match r {
        Ok(request) => Ok(request@),
        Err(e) => Err(e),
    }
}

/// The rule of a transfer: the address must be valid, then the amount must
/// be expressible in the daemon's unit and positive.
pub open spec fn send_rule(address_ok: bool, address: Seq<char>, amount_sat: Option<u64>) -> Result<
    ChainCall,
    HarnessError,
> {
    if !address_ok {
        Err(HarnessError::InvalidAddress)
    } else {
        match amount_sat {
            Some(amount) => if amount > 0 {
                Ok(ChainCall::SendToAddress { address, amount_sat: amount })
            } else {
                Err(HarnessError::InvalidAmount)
            },
            None => Err(HarnessError::InvalidAmount),
        }
    }
}

/// The rule of mining to a given address: the address must be valid.
pub open spec fn generate_rule(address_ok: bool, blocks: u64, address: Seq<char>) -> Result<
    ChainCall,
    HarnessError,
> {
    if address_ok {
        Ok(ChainCall::GenerateToAddress { blocks, address })
    } else {
        Err(HarnessError::InvalidAddress)
    }
}

/// The rule of mining to a fresh address: the wallet must be usable, then
/// the address that the daemon derived must be valid.
pub open spec fn generate_blocks_rule(
    wallet: WalletModel,
    address_ok: bool,
    count: u64,
    address: Seq<char>,
) -> Result<ChainCall, HarnessError> {
    if wallet.phase != WalletPhase::Ready {
        Err(HarnessError::WalletSetupFailed)
    } else {
        generate_rule(address_ok, count, address)
    }
}

/// The transfer that is to be sent, given whether the address is valid.
pub fn plan_send(address_ok: bool, address: &str, amount_sat: Option<u64>) -> (r: Result<
    ChainRequest,
    HarnessError,
>)
    ensures
        planned(r) == send_rule(address_ok, address@, amount_sat),
{
    if !address_ok {
        return Err(HarnessError::InvalidAddress);
    }
    match amount_sat {
        Some(amount) => {
            if amount > 0 {
                Ok(ChainRequest::SendToAddress { address: address.to_owned(), amount_sat: amount })
            } else {
                Err(HarnessError::InvalidAmount)
            }
        },
        None => Err(HarnessError::InvalidAmount),
    }
}

/// The mining request that is to be sent, given whether the address is
/// valid.
pub fn plan_generate(address_ok: bool, blocks: u64, address: &str) -> (r: Result<
    ChainRequest,
    HarnessError,
>)
    ensures
        planned(r) == generate_rule(address_ok, blocks, address@),
{
    if address_ok {
        Ok(ChainRequest::GenerateToAddress { blocks, address: address.to_owned() })
    } else {
        Err(HarnessError::InvalidAddress)
    }
}

/// The mining request that is to be sent once the wallet was set up and
/// the daemon derived an address, given whether that address is valid.
pub fn plan_generate_blocks(
    wallet: &WalletBootstrap,
    address_ok: bool,
    count: u64,
    address: &str,
) -> (r: Result<ChainRequest, HarnessError>)
    ensures
        planned(r) == generate_blocks_rule(wallet@, address_ok, count, address@),
{
    if !wallet.is_ready() {
        return Err(HarnessError::WalletSetupFailed);
    }
    plan_generate(address_ok, count, address)
}

/// The address that is handed out, given whether it is valid.
pub fn plan_address(address_ok: bool, address: &str) -> (r: Result<String, HarnessError>)
    ensures
        match r {
            Ok(a) => address_ok && a@ == address@,
            Err(e) => !address_ok && e == HarnessError::InvalidAddress,
        },
{
    if address_ok {
        Ok(address.to_owned())
    } else {
        Err(HarnessError::InvalidAddress)
    }
}

/// The chain client, without its connection: what it is configured with,
/// and the supervisor of its daemon.
pub struct BitcoinNode {
    config: BitcoinConfig,
    policy: RetryPolicy,
    supervisor: DaemonSupervisor,
}

impl BitcoinNode {
    /// The name of the network that the client is configured for.
    pub closed spec fn network(&self) -> Seq<char> {
        self.config.network@
    }

    /// The address of the daemon's request endpoint.
    pub closed spec fn url(&self) -> Seq<char> {
        self.config.url()
    }

    /// The bounds on waiting and retrying.
    pub closed spec fn policy(&self) -> RetryPolicy {
        self.policy
    }

    /// The state of the daemon's supervisor.
    pub closed spec fn daemon(&self) -> DaemonModel {
        self.supervisor@
    }

    /// The invariant of a client: its supervisor is well formed.
    pub open spec fn wf(&self) -> bool {
        self.daemon().wf()
    }

    /// A client for the daemon that `config` describes, with the standard
    /// bounds. It owns no process.
    pub fn new(config: BitcoinConfig) -> (node: BitcoinNode)
        ensures
            node.network() == config.network@,
            node.url() == config.url(),
            node.policy() == RetryPolicy::standard_spec(),
            node.daemon() == DaemonModel::start(config.executable_path(), node.policy(), false),
            node.wf(),
    {
        BitcoinNode::with_policy(config, RetryPolicy::standard())
    }

    /// A client for the daemon that `config` describes, with bounds of the
    /// caller's choice.
    pub fn with_policy(config: BitcoinConfig, policy: RetryPolicy) -> (node: BitcoinNode)
        ensures
            node.network() == config.network@,
            node.url() == config.url(),
            node.policy() == policy,
            node.daemon() == DaemonModel::start(config.executable_path(), policy, false),
            node.wf(),
    {
        let supervisor = DaemonSupervisor::new(config.executable(), &policy);
        BitcoinNode { config, policy, supervisor }
    }

    /// The address of the daemon's request endpoint.
    pub fn rpc_url(&self) -> (url: String)
        ensures
            url@ == self.url(),
    {
        self.config.rpc_url()
    }

    /// The supervisor of the daemon.
    pub fn supervisor(&self) -> (s: &DaemonSupervisor)
        ensures
            s@ == self.daemon(),
    {
        &self.supervisor
    }

    /// The request for the status of the chain.
    pub fn get_blockchain_info(&self) -> (r: ChainRequest)
        ensures
            r@ == ChainCall::GetBlockchainInfo,
    {
        ChainRequest::GetBlockchainInfo
    }

    /// A wallet bootstrap before its first action, with the client's
    /// bounds.
    pub fn ensure_wallet(&self) -> (b: WalletBootstrap)
        ensures
            b@ == WalletModel::start(
                self.policy().wallet_attempts as nat,
                self.policy().wallet_pause_secs as nat,
            ),
            b@.wf(),
    {
        WalletBootstrap::new(&self.policy)
    }

    /// Begins to make sure that a daemon can be reached, for the executable
    /// that `config` names, and says what to do first: probe the daemon.
    /// Carry on with [`BitcoinNode::daemon_event`].
    pub fn start_daemon(&mut self, config: &BitcoinConfig) -> (a: DaemonAction)
        ensures
            final(self).daemon() == DaemonModel::start(
                config.executable_path(),
                old(self).policy(),
                old(self).daemon().owns_process,
            ),
            a == DaemonAction::Probe,
            final(self).wf(),
            final(self).network() == old(self).network(),
            final(self).url() == old(self).url(),
            final(self).policy() == old(self).policy(),
    {
        self.supervisor.restart(config.executable(), &self.policy);
        self.supervisor.action()
    }

    /// Takes in what came of the last action and says what to do next.
    pub fn daemon_event(&mut self, event: DaemonEvent) -> (a: DaemonAction)
        requires
            old(self).wf(),
        ensures
            final(self).daemon() == old(self).daemon().step(event),
            a == final(self).daemon().action(),
            final(self).wf(),
            final(self).network() == old(self).network(),
            final(self).url() == old(self).url(),
            final(self).policy() == old(self).policy(),
    {
        self.supervisor.advance(event)
    }

    /// Gives up the daemon's process, if the client owns one. Returns
    /// whether there is a process to terminate and to wait for.
    pub fn stop_daemon(&mut self) -> (terminate: bool)
        ensures
            terminate == old(self).daemon().owns_process,
            final(self).daemon() == old(self).daemon().stopped(),
            old(self).wf() ==> final(self).wf(),
            final(self).network() == old(self).network(),
            final(self).url() == old(self).url(),
            final(self).policy() == old(self).policy(),
    {
        self.supervisor.stop()
    }

    /// The transfer of `amount_sat` to `address`. The amount is in the
    /// daemon's smallest unit; `None` stands for a figure that cannot be
    /// expressed in it. The address is validated first, then the amount.
    pub fn send_to_address(&self, address: &str, amount_sat: Option<u64>) -> (r: Result<
        ChainRequest,
        HarnessError,
    >)
        ensures
            planned(r) == send_rule(
                address_on_network(address@, self.network()),
                address@,
                amount_sat,
            ),
    {
        let address_ok = address_valid_on(address, self.config.network.as_str());
        plan_send(address_ok, address, amount_sat)
    }

    /// The request to mine `blocks` blocks to `address`.
    pub fn generate_to_address(&self, blocks: u64, address: &str) -> (r: Result<
        ChainRequest,
        HarnessError,
    >)
        ensures
            planned(r) == generate_rule(
                address_on_network(address@, self.network()),
                blocks,
                address@,
            ),
    {
        let address_ok = address_valid_on(address, self.config.network.as_str());
        plan_generate(address_ok, blocks, address)
    }

    /// The request to mine `count` blocks to the address that the daemon
    /// derived, after the wallet bootstrap `wallet` has run.
    pub fn generate_blocks(&self, count: u64, wallet: &WalletBootstrap, derived: &str) -> (r: Result<
        ChainRequest,
        HarnessError,
    >)
        ensures
            planned(r) == generate_blocks_rule(
                wallet@,
                address_on_network(derived@, self.network()),
                count,
                derived@,
            ),
    {
        let address_ok = address_valid_on(derived, self.config.network.as_str());
        plan_generate_blocks(wallet, address_ok, count, derived)
    }

    /// The request for a freshly derived address.
    pub fn new_address_request(&self) -> (r: ChainRequest)
        ensures
            r@ == ChainCall::GetNewAddress,
    {
        ChainRequest::GetNewAddress
    }

    /// The address that the daemon derived, handed out only if it is one of
    /// the configured network.
    pub fn get_new_address(&self, derived: &str) -> (r: Result<String, HarnessError>)
        ensures
            match r {
                Ok(a) => address_on_network(derived@, self.network()) && a@ == derived@,
                Err(e) => !address_on_network(derived@, self.network()) && e
                    == HarnessError::InvalidAddress,
            },
    {
        let address_ok = address_valid_on(derived, self.config.network.as_str());
        plan_address(address_ok, derived)
    }
}

} // verus!

//! The peer client: its configuration and the requests it sends to a
//! payment-channel peer, each validated before it is sent.

use std::str::FromStr;
use vstd::prelude::*;
use vstd::string::*;
use cln_rpc::primitives::PublicKey;
use crate::error::HarnessError;
use crate::text::text_of;

verus! {

/// The name of a peer's control socket inside its network directory.
pub const SOCKET_NAME: &'static str = "lightning-rpc";

/// The code with which a peer refuses an invoice whose label is in use.
pub const DUPLICATE_LABEL_CODE: i32 = 900;

/// How a peer is reached, and the chain daemon behind it.
#[derive(Debug, Clone)]
pub struct LightningConfig {
    pub network: String,
    pub lightning_dir: String,
    pub bitcoin_rpc_host: String,
    pub bitcoin_rpc_port: u16,
    pub bitcoin_rpc_user: String,
    pub bitcoin_rpc_password: String,
}

impl LightningConfig {
    /// The path of the peer's control socket: the data directory, the
    /// network's directory in it, and the socket's name.
    pub open spec fn socket(&self) -> Seq<char> {
        self.lightning_dir@ + "/"@ + self.network@ + "/"@ + SOCKET_NAME@
    }

    /// The path of the peer's control socket.
    pub fn socket_path(&self) -> (path: String)
        ensures
            path@ == self.socket(),
    {
        let mut path = self.lightning_dir.clone();
        path.append("/");
        path.append(self.network.as_str());
        path.append("/");
        path.append(SOCKET_NAME);
        path
    }
}

/// The canonical text of the public key that `text` denotes, or `None`
/// where `text` is no public key.
pub uninterp spec fn public_key_hex(text: Seq<char>) -> Option<Seq<char>>;

/// Trusted: `PublicKey::from_str` of `secp256k1`, as `cln_rpc` exports it.
/// The result is the key that the text denotes, written out again by the
/// key's `to_string`, or `None` where the text denotes no key. It depends
/// on the text alone.
#[verifier::external_body]
fn parse_public_key(text: &str) -> (key: Option<String>)
    ensures
        text_of(key) == public_key_hex(text@),
{
    match PublicKey::from_str(text) {
        Ok(key) => Some(key.to_string()),
        Err(_) => None,
    }
}

/// A request to a peer, ready to be sent.
#[derive(Debug, Clone, PartialEq, Eq)]
pub enum PeerRequest {
    /// Ask the peer who it is.
    GetInfo,
    /// Ask for an invoice over `amount_msat` under a label of its own.
    Invoice { amount_msat: u64, label: String, description: String },
    /// Fund a channel of `amount_sat` to the peer with key `id`.
    FundChannel { id: String, amount_sat: u64 },
    /// Connect to the peer with key `id` at `host` and `port`.
    Connect { id: String, host: String, port: u16 },
    /// Ask for an address that funds the peer's wallet.
    NewAddr,
    /// Ask for the peer's outputs and channels.
    ListFunds,
}

/// A request to a peer, as mathematics.
pub enum PeerCall {
    GetInfo,
    Invoice { amount_msat: u64, label: Seq<char>, description: Seq<char> },
    FundChannel { id: Seq<char>, amount_sat: u64 },
    Connect { id: Seq<char>, host: Seq<char>, port: u16 },
    NewAddr,
    ListFunds,
}

impl View for PeerRequest {
    type V = PeerCall;

    open spec fn view(&self) -> PeerCall {
        match self {
            PeerRequest::GetInfo => PeerCall::GetInfo,
            PeerRequest::Invoice { amount_msat, label, description } => PeerCall::Invoice {
                amount_msat: *amount_msat,
                label: label@,
                description: description@,
            },
            PeerRequest::FundChannel { id, amount_sat } => PeerCall::FundChannel {
                id: id@,
                amount_sat: *amount_sat,
            },
            PeerRequest::Connect { id, host, port } => PeerCall::Connect {
                id: id@,
                host: host@,
                port: *port,
            },
            PeerRequest::NewAddr => PeerCall::NewAddr,
            PeerRequest::ListFunds => PeerCall::ListFunds,
        }
    }
}

/// What the client reads of a peer's reply to a request for an address.
#[derive(Debug, Clone, PartialEq, Eq)]
pub enum PeerReply {
    /// The reply to a request for an address, with the address if the peer
    /// gave one.
    NewAddr { bech32: Option<String> },
    /// A reply of any other kind.
    Other,
}

/// A planned request or the failure that stands in its way, as mathematics.
pub open spec fn planned(r: Result<PeerRequest, HarnessError>) -> Result<PeerCall, HarnessError> {
    match r {
        Ok(request) => Ok(request@),
        Err(e) => Err(e),
    }
}

/// The rule of every request: the control channel must stand.
pub open spec fn connected_rule(connected: bool, call: PeerCall) -> Result<PeerCall, HarnessError> {
    if connected {
        Ok(call)
    } else {
        Err(HarnessError::NotConnected)
    }
}

/// The rule of funding a channel: the control channel must stand, then the
/// peer's identity must be a public key.
pub open spec fn fund_rule(connected: bool, key: Option<Seq<char>>, amount_sat: u64) -> Result<
    PeerCall,
    HarnessError,
> {
    if !connected {
        Err(HarnessError::NotConnected)
    } else {
        match key {
            Some(id) => Ok(PeerCall::FundChannel { id, amount_sat }),
            None => Err(HarnessError::InvalidPeerId),
        }
    }
}

/// The rule of connecting to a peer: the control channel must stand, then
/// the peer's identity must be a public key.
pub open spec fn connect_rule(
    connected: bool,
    key: Option<Seq<char>>,
    host: Seq<char>,
    port: u16,
) -> Result<PeerCall, HarnessError> {
    if !connected {
        Err(HarnessError::NotConnected)
    } else {
        match key {
            Some(id) => Ok(PeerCall::Connect { id, host, port }),
            None => Err(HarnessError::InvalidPeerId),
        }
    }
}

/// The rule of reading an address: the reply must be one to a request for
/// an address and must carry the address.
pub open spec fn address_rule(reply: PeerReply) -> Result<Seq<char>, HarnessError> {
    match reply {
        PeerReply::NewAddr { bech32: Some(address) } => Ok(address@),
        _ => Err(HarnessError::NoAddressReturned),
    }
}

/// What a refused invoice means, by the code the peer gave: a label that
/// is in use, or a failure of the request.
pub open spec fn invoice_failure_rule(code: Option<i32>) -> HarnessError {
    if code == Some(DUPLICATE_LABEL_CODE) {
        HarnessError::DuplicateLabel
    } else {
        HarnessError::RpcError
    }
}

/// What a refused invoice means, by the code the peer gave, if it gave
/// one.
pub fn invoice_failure(code: Option<i32>) -> (e: HarnessError)
    ensures
        e == invoice_failure_rule(code),
{
    match code {
        Some(c) => {
            if c == DUPLICATE_LABEL_CODE {
                HarnessError::DuplicateLabel
            } else {
                HarnessError::RpcError
            }
        },
        None => HarnessError::RpcError,
    }
}

/// The funding request that is to be sent, given the peer's key as it was
/// parsed.
pub fn plan_open_channel(connected: bool, key: Option<String>, amount_sat: u64) -> (r: Result<
    PeerRequest,
    HarnessError,
>)
    ensures
        planned(r) == fund_rule(connected, text_of(key), amount_sat),
{
    if !connected {
        return Err(HarnessError::NotConnected);
    }
    match key {
        Some(id) => Ok(PeerRequest::FundChannel { id, amount_sat }),
        None => Err(HarnessError::InvalidPeerId),
    }
}

/// The connection request that is to be sent, given the peer's key as it
/// was parsed.
pub fn plan_connect_peer(connected: bool, key: Option<String>, host: &str, port: u16) -> (r: Result<
    PeerRequest,
    HarnessError,
>)
    ensures
        planned(r) == connect_rule(connected, text_of(key), host@, port),
{
    if !connected {
        return Err(HarnessError::NotConnected);
    }
    match key {
        Some(id) => Ok(PeerRequest::Connect { id, host: host.to_owned(), port }),
        None => Err(HarnessError::InvalidPeerId),
    }
}

/// The address in a peer's reply.
pub fn address_from_reply(reply: &PeerReply) -> (r: Result<String, HarnessError>)
    ensures
        match r {
            Ok(address) => address_rule(*reply) == Ok::<Seq<char>, HarnessError>(address@),
            Err(e) => address_rule(*reply) == Err::<Seq<char>, HarnessError>(e),
        },
{
    match reply {
        PeerReply::NewAddr { bech32: Some(address) } => Ok(address.clone()),
        _ => Err(HarnessError::NoAddressReturned),
    }
}

/// The peer client, without its control channel: who the peer is, how it
/// is reached, and whether the channel stands.
pub struct LightningNode {
    pub id: String,
    connected: bool,
    config: LightningConfig,
}

impl LightningNode {
    /// The identity the client was given for the peer.
    pub closed spec fn identity(&self) -> Seq<char> {
        self.id@
    }

    /// Whether the control channel stands.
    pub closed spec fn connected(&self) -> bool {
        self.connected
    }

    /// The path of the peer's control socket.
    pub closed spec fn socket(&self) -> Seq<char> {
        self.config.socket()
    }

    /// A client for the peer `id`, not yet connected.
    pub fn new(config: LightningConfig, id: String) -> (node: LightningNode)
        ensures
            node.identity() == id@,
            !node.connected(),
            node.socket() == config.socket(),
    {
        LightningNode { id, connected: false, config }
    }

    /// The path of the control socket to connect to.
    pub fn socket_path(&self) -> (path: String)
        ensures
            path@ == self.socket(),
    {
        self.config.socket_path()
    }

    /// Whether the control channel stands.
    pub fn is_connected(&self) -> (r: bool)
        ensures
            r == self.connected(),
    {
        self.connected
    }

    /// Takes in whether the control channel could be opened. From a
    /// success on, the other operations can be asked for; a failure leaves
    /// the client as it was.
    pub fn connect_rpc(&mut self, established: bool) -> (r: Result<(), HarnessError>)
        ensures
            r == (if established {
                Ok::<(), HarnessError>(())
            } else {
                Err::<(), HarnessError>(HarnessError::RpcError)
            }),
            final(self).connected() == (established || old(self).connected()),
            final(self).socket() == old(self).socket(),
            final(self).identity() == old(self).identity(),
    {
        if established {
            self.connected = true;
            Ok(())
        } else {
            Err(HarnessError::RpcError)
        }
    }

    /// The request for the peer's identity and alias.
    pub fn get_node_info(&self) -> (r: Result<PeerRequest, HarnessError>)
        ensures
            planned(r) == connected_rule(self.connected(), PeerCall::GetInfo),
    {
        if !self.connected {
            return Err(HarnessError::NotConnected);
        }
        Ok(PeerRequest::GetInfo)
    }

    /// The request for an invoice over `amount_msat`.
    pub fn create_invoice(&self, amount_msat: u64, label: &str, description: &str) -> (r: Result<
        PeerRequest,
        HarnessError,
    >)
        ensures
            planned(r) == connected_rule(
                self.connected(),
                PeerCall::Invoice { amount_msat, label: label@, description: description@ },
            ),
    {
        if !self.connected {
            return Err(HarnessError::NotConnected);
        }
        Ok(
            PeerRequest::Invoice {
                amount_msat,
                label: label.to_owned(),
                description: description.to_owned(),
            },
        )
    }

    /// The request to fund a channel of `amount_sat` to the peer `peer_id`,
    /// which must be a public key.
    pub fn open_channel(&self, peer_id: &str, amount_sat: u64) -> (r: Result<
        PeerRequest,
        HarnessError,
    >)
        ensures
            planned(r) == fund_rule(self.connected(), public_key_hex(peer_id@), amount_sat),
    {
        if !self.connected {
            return Err(HarnessError::NotConnected);
        }
        plan_open_channel(true, parse_public_key(peer_id), amount_sat)
    }

    /// The request to connect to the peer `node_id`, which must be a public
    /// key, at `host` and `port`.
    pub fn connect_peer(&self, node_id: &str, host: &str, port: u16) -> (r: Result<
        PeerRequest,
        HarnessError,
    >)
        ensures
            planned(r) == connect_rule(self.connected(), public_key_hex(node_id@), host@, port),
    {
        if !self.connected {
            return Err(HarnessError::NotConnected);
        }
        plan_connect_peer(true, parse_public_key(node_id), host, port)
    }

    /// The request for an address that funds the peer's wallet. Read the
    /// reply with [`address_from_reply`].
    pub fn get_new_address(&self) -> (r: Result<PeerRequest, HarnessError>)
        ensures
            planned(r) == connected_rule(self.connected(), PeerCall::NewAddr),
    {
        if !self.connected {
            return Err(HarnessError::NotConnected);
        }
        Ok(PeerRequest::NewAddr)
    }

    /// The request for the peer's outputs and channels.
    pub fn list_funds(&self) -> (r: Result<PeerRequest, HarnessError>)
        ensures
            planned(r) == connected_rule(self.connected(), PeerCall::ListFunds),
    {
        if !self.connected {
            return Err(HarnessError::NotConnected);
        }
        Ok(PeerRequest::ListFunds)
    }
}

} // verus!

use regtest_harness::bitcoin::daemon::DaemonAction;
use regtest_harness::bitcoin::daemon::DaemonEvent;
use regtest_harness::bitcoin::daemon::DEFAULT_EXECUTABLE;
use regtest_harness::bitcoin::node::plan_address;
use regtest_harness::bitcoin::node::plan_generate;
use regtest_harness::bitcoin::node::plan_generate_blocks;
use regtest_harness::bitcoin::node::plan_send;
use regtest_harness::bitcoin::node::ChainRequest;
use regtest_harness::bitcoin::policy::RetryPolicy;
use regtest_harness::bitcoin::wallet::RpcOutcome;
use regtest_harness::bitcoin::wallet::WalletAction;
use regtest_harness::bitcoin::wallet::WalletBootstrap;
use regtest_harness::bitcoin::wallet::WalletEvent;
use regtest_harness::bitcoin::BitcoinConfig;
use regtest_harness::bitcoin::BitcoinNode;
use regtest_harness::error::HarnessError;

const REGTEST_ADDRESS: &str = "bcrt1q2nfxmhd4n3c8834pj72xagvyr9gl57n5r94fsl";
const TEST_LEGACY_ADDRESS: &str = "2N83imGV3gPwBzKJQvWJ7cRUY2SpUyU6A5e";
const MAIN_ADDRESS: &str = "32iVBEu4dxkUQk9dJbZUiBiQdmypcEyJRf";
const MAIN_SEGWIT_ADDRESS: &str = "bc1qhvd6suvqzjcu9pxjhrwhtrlj85ny3n2mqql5w4";

fn chain_config() -> BitcoinConfig {
    BitcoinConfig {
        rpc_host: "127.0.0.1".to_string(),
        rpc_port: 18443,
        rpc_user: "bitcoinrpc".to_string(),
        rpc_password: "rpcpassword".to_string(),
        network: "regtest".to_string(),
        bitcoin_path: Some("/snap/bin/bitcoin-core.daemon".to_string()),
    }
}

fn ready_wallet() -> WalletBootstrap {
    let mut b = WalletBootstrap::new(&RetryPolicy::standard());
    b.advance(&WalletEvent::CreateFinished(RpcOutcome::Success));
    b.advance(&WalletEvent::LoadFinished(RpcOutcome::Success));
    b
}

#[test]
fn rpc_url_joins_host_and_port() {
    assert_eq!(chain_config().rpc_url(), "http://127.0.0.1:18443");
    assert_eq!(BitcoinNode::new(chain_config()).rpc_url(), "http://127.0.0.1:18443");
    let other = BitcoinConfig { rpc_host: "localhost".to_string(), rpc_port: 0, ..chain_config() };
    assert_eq!(other.rpc_url(), "http://localhost:0");
    let top = BitcoinConfig { rpc_port: 65535, ..chain_config() };
    assert_eq!(top.rpc_url(), "http://127.0.0.1:65535");
}

#[test]
fn executable_falls_back_to_the_default() {
    assert_eq!(chain_config().executable(), "/snap/bin/bitcoin-core.daemon");
    let bare = BitcoinConfig { bitcoin_path: None, ..chain_config() };
    assert_eq!(bare.executable(), DEFAULT_EXECUTABLE);
}

#[test]
fn new_node_owns_no_process() {
    let mut node = BitcoinNode::new(chain_config());
    assert!(!node.supervisor().owns_process());
    assert_eq!(node.supervisor().executable(), "/snap/bin/bitcoin-core.daemon");
    assert!(!node.stop_daemon());
}

#[test]
fn status_request() {
    let node = BitcoinNode::new(chain_config());
    assert_eq!(node.get_blockchain_info(), ChainRequest::GetBlockchainInfo);
    assert_eq!(node.new_address_request(), ChainRequest::GetNewAddress);
}

#[test]
fn start_with_missing_executable_fails_and_spawns_nothing() {
    let mut node = BitcoinNode::new(chain_config());
    let missing = BitcoinConfig { bitcoin_path: Some("/no/such/daemon".to_string()), ..chain_config() };
    assert_eq!(node.start_daemon(&missing), DaemonAction::Probe);
    assert_eq!(node.supervisor().executable(), "/no/such/daemon");
    assert_eq!(node.daemon_event(DaemonEvent::Probed(false)), DaemonAction::Locate);
    assert_eq!(
        node.daemon_event(DaemonEvent::Located(false)),
        DaemonAction::Abort(HarnessError::ExecutableNotFound)
    );
    assert!(!node.supervisor().owns_process());
    assert!(!node.stop_daemon());
}

#[test]
fn start_and_stop_of_a_launched_daemon() {
    let mut node = BitcoinNode::new(chain_config());
    node.start_daemon(&chain_config());
    node.daemon_event(DaemonEvent::Probed(false));
    assert_eq!(node.daemon_event(DaemonEvent::Located(true)), DaemonAction::Launch);
    assert_eq!(node.daemon_event(DaemonEvent::Launched(true)), DaemonAction::Wait(1));
    node.daemon_event(DaemonEvent::Waited);
    assert_eq!(node.daemon_event(DaemonEvent::Probed(true)), DaemonAction::Wait(2));
    assert_eq!(node.daemon_event(DaemonEvent::Waited), DaemonAction::SetUpWallet);
    assert_eq!(node.daemon_event(DaemonEvent::WalletFinished(false)), DaemonAction::Finish);
    assert_eq!(node.supervisor().outcome(), Some(Ok(())));
    assert!(node.stop_daemon());
    assert!(!node.stop_daemon());
}

#[test]
fn ensure_wallet_follows_the_policy() {
    let node = BitcoinNode::new(chain_config());
    let mut b = node.ensure_wallet();
    assert_eq!(b.action(), WalletAction::CreateWallet);
    b.advance(&WalletEvent::CreateFinished(RpcOutcome::Success));
    assert_eq!(
        b.advance(&WalletEvent::LoadFinished(RpcOutcome::Failure("no".to_string()))),
        WalletAction::Pause(2)
    );
    let quick = RetryPolicy { wallet_attempts: 0, ..RetryPolicy::standard() };
    let node = BitcoinNode::with_policy(chain_config(), quick);
    assert_eq!(node.ensure_wallet().action(), WalletAction::GiveUp);
}

#[test]
fn send_to_a_regtest_address() {
    let node = BitcoinNode::new(chain_config());
    assert_eq!(
        node.send_to_address(REGTEST_ADDRESS, Some(100_000_000)),
        Ok(ChainRequest::SendToAddress {
            address: REGTEST_ADDRESS.to_string(),
            amount_sat: 100_000_000
        })
    );
    assert_eq!(
        node.send_to_address(TEST_LEGACY_ADDRESS, Some(1)),
        Ok(ChainRequest::SendToAddress { address: TEST_LEGACY_ADDRESS.to_string(), amount_sat: 1 })
    );
}

#[test]
fn send_to_an_address_of_another_network_is_refused() {
    let node = BitcoinNode::new(chain_config());
    assert_eq!(node.send_to_address(MAIN_ADDRESS, Some(1)), Err(HarnessError::InvalidAddress));
    assert_eq!(
        node.send_to_address(MAIN_SEGWIT_ADDRESS, Some(1)),
        Err(HarnessError::InvalidAddress)
    );
}

#[test]
fn send_to_a_malformed_address_is_refused() {
    let node = BitcoinNode::new(chain_config());
    assert_eq!(node.send_to_address("", Some(1)), Err(HarnessError::InvalidAddress));
    assert_eq!(node.send_to_address("not an address", Some(1)), Err(HarnessError::InvalidAddress));
    assert_eq!(
        node.send_to_address("bcrt1q2nfxmhd4n3c8834pj72xagvyr9gl57n5r94fsx", Some(1)),
        Err(HarnessError::InvalidAddress)
    );
}

#[test]
fn send_of_no_amount_is_refused() {
    let node = BitcoinNode::new(chain_config());
    assert_eq!(node.send_to_address(REGTEST_ADDRESS, Some(0)), Err(HarnessError::InvalidAmount));
    assert_eq!(node.send_to_address(REGTEST_ADDRESS, None), Err(HarnessError::InvalidAmount));
}

#[test]
fn send_checks_the_address_before_the_amount() {
    let node = BitcoinNode::new(chain_config());
    assert_eq!(node.send_to_address(MAIN_ADDRESS, Some(0)), Err(HarnessError::InvalidAddress));
    assert_eq!(node.send_to_address("", None), Err(HarnessError::InvalidAddress));
}

#[test]
fn address_is_held_against_the_configured_network() {
    let main = BitcoinNode::new(BitcoinConfig { network: "bitcoin".to_string(), ..chain_config() });
    assert_eq!(
        main.send_to_address(MAIN_ADDRESS, Some(5)),
        Ok(ChainRequest::SendToAddress { address: MAIN_ADDRESS.to_string(), amount_sat: 5 })
    );
    assert_eq!(main.send_to_address(REGTEST_ADDRESS, Some(5)), Err(HarnessError::InvalidAddress));
    let odd = BitcoinNode::new(BitcoinConfig { network: "nonet".to_string(), ..chain_config() });
    assert_eq!(odd.send_to_address(REGTEST_ADDRESS, Some(5)), Err(HarnessError::InvalidAddress));
}

#[test]
fn generate_to_a_given_address() {
    let node = BitcoinNode::new(chain_config());
    assert_eq!(
        node.generate_to_address(6, REGTEST_ADDRESS),
        Ok(ChainRequest::GenerateToAddress { blocks: 6, address: REGTEST_ADDRESS.to_string() })
    );
    assert_eq!(node.generate_to_address(6, MAIN_ADDRESS), Err(HarnessError::InvalidAddress));
    assert_eq!(
        node.generate_to_address(0, REGTEST_ADDRESS),
        Ok(ChainRequest::GenerateToAddress { blocks: 0, address: REGTEST_ADDRESS.to_string() })
    );
}

#[test]
fn generate_blocks_needs_a_usable_wallet() {
    let node = BitcoinNode::new(chain_config());
    let fresh = node.ensure_wallet();
    assert_eq!(
        node.generate_blocks(101, &fresh, REGTEST_ADDRESS),
        Err(HarnessError::WalletSetupFailed)
    );
    let none = WalletBootstrap::new(&RetryPolicy { wallet_attempts: 0, ..RetryPolicy::standard() });
    assert_eq!(
        node.generate_blocks(101, &none, REGTEST_ADDRESS),
        Err(HarnessError::WalletSetupFailed)
    );
    assert_eq!(
        node.generate_blocks(101, &ready_wallet(), REGTEST_ADDRESS),
        Ok(ChainRequest::GenerateToAddress { blocks: 101, address: REGTEST_ADDRESS.to_string() })
    );
    assert_eq!(
        node.generate_blocks(101, &ready_wallet(), MAIN_ADDRESS),
        Err(HarnessError::InvalidAddress)
    );
    assert_eq!(node.generate_blocks(101, &fresh, MAIN_ADDRESS), Err(HarnessError::WalletSetupFailed));
}

#[test]
fn derived_address_is_handed_out_if_valid() {
    let node = BitcoinNode::new(chain_config());
    assert_eq!(node.get_new_address(REGTEST_ADDRESS), Ok(REGTEST_ADDRESS.to_string()));
    assert_eq!(node.get_new_address(MAIN_ADDRESS), Err(HarnessError::InvalidAddress));
}

#[test]
fn plans_follow_the_validity_they_are_given() {
    assert_eq!(plan_send(false, "x", Some(1)), Err(HarnessError::InvalidAddress));
    assert_eq!(plan_send(true, "x", Some(0)), Err(HarnessError::InvalidAmount));
    assert_eq!(plan_send(true, "x", None), Err(HarnessError::InvalidAmount));
    assert_eq!(
        plan_send(true, "x", Some(u64::MAX)),
        Ok(ChainRequest::SendToAddress { address: "x".to_string(), amount_sat: u64::MAX })
    );
    assert_eq!(plan_generate(false, 1, "x"), Err(HarnessError::InvalidAddress));
    assert_eq!(
        plan_generate(true, 1, "x"),
        Ok(ChainRequest::GenerateToAddress { blocks: 1, address: "x".to_string() })
    );
    assert_eq!(
        plan_generate_blocks(&ready_wallet(), true, 3, "x"),
        Ok(ChainRequest::GenerateToAddress { blocks: 3, address: "x".to_string() })
    );
    assert_eq!(plan_address(true, "x"), Ok("x".to_string()));
    assert_eq!(plan_address(false, "x"), Err(HarnessError::InvalidAddress));
}

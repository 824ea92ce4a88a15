//! The chain daemon: its configuration, the supervision of its process,
//! wallet bootstrap, and the requests of the chain client.

pub mod daemon;
pub mod node;
pub mod policy;
pub mod wallet;

pub use daemon::DaemonSupervisor;
pub use node::BitcoinConfig;
pub use node::BitcoinNode;
pub use policy::RetryPolicy;
pub use wallet::WalletBootstrap;

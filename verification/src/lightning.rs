//! A payment-channel peer: its configuration and the requests of the peer
//! client.

pub mod node;

pub use node::LightningConfig;
pub use node::LightningNode;

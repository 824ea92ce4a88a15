//! The topology of peers and channels, and its rendering as a diagram.

pub mod backing;
pub mod dot;
pub mod graph;
pub mod snapshot;
pub mod topology;

pub use graph::NetworkGraph;
pub use snapshot::ChannelSnapshot;
pub use snapshot::Funds;
pub use snapshot::NodeInfo;
pub use topology::Topology;

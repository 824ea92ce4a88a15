//! The decisions of a regtest harness, without its I/O.
//!
//! A harness of this kind drives one chain daemon and a few payment-channel
//! peers on a private test network and draws the channels it finds. This
//! crate holds what such a harness decides and computes, and proves it:
//!
//! - [`bitcoin::daemon`]: making sure that a chain daemon runs (probe,
//!   locate, launch, poll, settle), as a state machine;
//! - [`bitcoin::wallet`]: the create-or-load retry loop of wallet
//!   bootstrap, as a state machine;
//! - [`bitcoin::node`] and [`lightning::node`]: the requests of the two
//!   clients, validated before they are sent;
//! - [`visualization`]: the topology graph of peers and channels and its
//!   diagram;
//! - [`document`], [`text`] and [`error`]: status documents, text helpers
//!   and the failures.
//!
//! Nothing here opens a socket, starts a process or sleeps. A state machine
//! names the next action and takes in what came of it; a client hands out
//! the request to send. The caller does the work in between.

pub mod bitcoin;
pub mod document;
pub mod error;
pub mod lightning;
pub mod text;
pub mod visualization;

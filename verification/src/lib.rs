//! Outbound connections with a bound on how long each connection attempt may
//! take.
//!
//! A host may have several addresses, and an address that does not answer
//! can hold a blocking connect for a long time. A [`HttpTimeoutConnector`]
//! carries an optional timeout and begins a [`Dial`] under it. The dial tries
//! the addresses one after another in the resolver's order, each attempt
//! under the whole timeout, and ends with the first attempt that connects or,
//! where none does, with the error of the last.
//!
//! The crate holds the decisions of a dial and leaves the network to its
//! caller. The dial names one [`Action`] at a time: resolve this host,
//! attempt this address. The caller carries the action out and reports the
//! [`Event`] back, until the dial has ended.
//!
//! - [`connector`]: the configuration and the beginning of a dial.
//! - [`dial`]: the dial as an executable state machine.
//! - [`model`]: the states and transitions that the machine is proved to
//!   follow.
//! - [`network`]: a resolver and a transport with fixed answers, and the
//!   caller's loop against them.
//! - [`laws`]: what is proved of every such loop.
//! - [`address`], [`error`], [`scheme`]: the values that a dial works on.

pub mod address;
pub mod connector;
pub mod dial;
pub mod error;
pub mod laws;
pub mod model;
pub mod network;
pub mod scheme;

pub use address::{Address, Family};
pub use connector::HttpTimeoutConnector;
pub use dial::{Action, Dial, Event};
pub use error::ConnectError;

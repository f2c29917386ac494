//! The mathematical model of a dial: its states, what it asks of its caller
//! in each, and how an answer moves it on.
//!
//! A dial does no work on the network. In every state it names one action for
//! its caller to carry out, and the caller reports how the action ended. The
//! model says, as plain functions on plain values, which state follows.

use crate::address::{Address, Family};
use crate::error::ConnectError;
use crate::scheme::http;
use std::time::Duration;
use vstd::prelude::*;

verus! {

/// What a dial asks its caller to do next.
pub enum ActionView {
    /// Ask the resolver for the addresses of `host` and `port`.
    Resolve { host: Seq<char>, port: u16 },
    /// Make a socket of `family` and connect it to `address`, the address at
    /// `index` in the resolver's answer. With a `timeout` the attempt is
    /// bounded by it; without one it is an ordinary blocking connect.
    Attempt { index: nat, address: Address, family: Family, timeout: Option<Duration> },
    /// Nothing more: the dial has ended.
    Finish,
}

/// How an action ended.
pub enum EventView<E> {
    /// The resolver answered with these addresses, in this order.
    Resolved(Seq<Address>),
    /// The resolver failed.
    ResolveFailed(E),
    /// The attempt connected.
    Connected,
    /// The attempt failed.
    ConnectFailed(E),
}

/// How far a dial has come.
pub enum Progress<E> {
    /// The scheme was accepted; the resolver's answer is awaited.
    Resolving,
    /// The address at `index` is being attempted; the addresses before it
    /// failed, the last of them with `last_error`.
    Attempting { addresses: Seq<Address>, index: nat, last_error: Option<E> },
    /// The attempt on the address at `index` connected.
    Connected { index: nat },
    /// The dial failed.
    Failed { error: ConnectError<E> },
}

impl<E> Progress<E> {
    /// What holds wherever a dial can be: an attempt is made on an address
    /// that the resolver gave, and an earlier error is on record exactly when
    /// an earlier address was attempted.
    pub open spec fn wf(self) -> bool {
        match self {
            Progress::Attempting { addresses, index, last_error } => {
                &&& index < addresses.len()
                &&& last_error is Some <==> index > 0
            },
            _ => true,
        }
    }

    /// Where the dial stands when the pending action ended with `event`.
    ///
    /// The resolver's failure ends the dial with that failure; its empty
    /// answer ends the dial too. A connected attempt ends the dial in
    /// success. A failed attempt moves the dial to the next address, and
    /// after the last address ends it with the error of that attempt. An
    /// event that does not answer the pending action changes nothing.
    pub open spec fn next(self, event: EventView<E>) -> Progress<E> {
        match (self, event) {
            (Progress::Resolving, EventView::Resolved(addresses)) => {
                if addresses.len() == 0 {
                    Progress::Failed { error: ConnectError::NoAddresses }
                } else {
                    Progress::Attempting { addresses, index: 0, last_error: None }
                }
            },
            (Progress::Resolving, EventView::ResolveFailed(error)) => Progress::Failed {
                error: ConnectError::Resolution(error),
            },
            (Progress::Attempting { index, .. }, EventView::Connected) => Progress::Connected {
                index,
            },
            (Progress::Attempting { addresses, index, .. }, EventView::ConnectFailed(error)) => {
                if index + 1 < addresses.len() {
                    Progress::Attempting { addresses, index: index + 1, last_error: Some(error) }
                } else {
                    Progress::Failed { error: ConnectError::Connection(error) }
                }
            },
            (progress, _) => progress,
        }
    }
}

/// The state of a dial: what it was asked for, and how far it has come.
pub struct DialView<E> {
    /// The host to resolve, as the caller gave it.
    pub host: Seq<char>,
    /// The port to resolve, as the caller gave it.
    pub port: u16,
    /// The bound on each attempt, as the connector held it when the dial
    /// began.
    pub timeout: Option<Duration>,
    /// How far the dial has come.
    pub progress: Progress<E>,
}

impl<E> DialView<E> {
    /// The state in which a dial begins. A scheme other than [`http`] ends it
    /// before anything is asked of the resolver or the network.
    pub open spec fn start(
        timeout: Option<Duration>,
        host: Seq<char>,
        port: u16,
        scheme: Seq<char>,
    ) -> DialView<E> {
        DialView {
            host,
            port,
            timeout,
            progress: if scheme == http() {
                Progress::Resolving
            } else {
                Progress::Failed { error: ConnectError::InvalidScheme }
            },
        }
    }

    /// Whether the state is one that a dial can be in.
    pub open spec fn wf(self) -> bool {
        self.progress.wf()
    }

    /// The action that the dial asks for in this state.
    pub open spec fn action(self) -> ActionView {
        match self.progress {
            Progress::Resolving => ActionView::Resolve { host: self.host, port: self.port },
            Progress::Attempting { addresses, index, .. } => ActionView::Attempt {
                index,
                address: addresses[index as int],
                family: addresses[index as int].family(),
                timeout: self.timeout,
            },
            _ => ActionView::Finish,
        }
    }

    /// Whether the dial has ended, in success or in failure.
    pub open spec fn finished(self) -> bool {
        self.action() is Finish
    }

    /// The state that follows when the pending action ended with `event`:
    /// the dial moves on as [`Progress::next`] says, and what it was asked
    /// for stays.
    pub open spec fn next(self, event: EventView<E>) -> DialView<E> {
        DialView { progress: self.progress.next(event), ..self }
    }

    /// What the dial came to: the index of the address that connected, or the
    /// failure; `None` while the dial has not ended.
    pub open spec fn result(self) -> Option<Result<nat, ConnectError<E>>> {
        match self.progress {
            Progress::Connected { index } => Some(Ok(index)),
            Progress::Failed { error } => Some(Err(error)),
            _ => None,
        }
    }
}

} // verus!

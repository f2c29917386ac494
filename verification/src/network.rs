//! A network with fixed answers, and the caller's loop against it.
//!
//! A [`Network`] stands for a resolver and a transport that answer the same
//! question the same way each time. [`DialView::run`] is the caller's loop
//! against such a network, and [`DialView::trace`] the actions that the loop
//! carries out. [`Network::outcome`] and [`Network::actions`] say directly
//! what a dial on the network comes to and what it asks on the way.

use crate::address::Address;
use crate::error::ConnectError;
use crate::model::{ActionView, DialView, EventView};
use crate::scheme::http;
use std::time::Duration;
use vstd::prelude::*;

verus! {

/// A resolver and a transport whose answers depend on the question alone.
pub struct Network<E> {
    /// The resolver's answer for a host and a port.
    pub resolve: spec_fn(Seq<char>, u16) -> Result<Seq<Address>, E>,
    /// How the attempt with the given index ends, made on the given address
    /// under the given bound.
    pub connect: spec_fn(nat, Address, Option<Duration>) -> Result<(), E>,
}

impl<E> Network<E> {
    /// The event with which the network answers `action`; `None` for
    /// [`ActionView::Finish`], which asks nothing.
    pub open spec fn answer(self, action: ActionView) -> Option<EventView<E>> {
        match action {
            ActionView::Resolve { host, port } => Some(
                match (self.resolve)(host, port) {
                    Ok(addresses) => EventView::Resolved(addresses),
                    Err(error) => EventView::ResolveFailed(error),
                },
            ),
            ActionView::Attempt { index, address, timeout, .. } => Some(
                match (self.connect)(index, address, timeout) {
                    Ok(_) => EventView::Connected,
                    Err(error) => EventView::ConnectFailed(error),
                },
            ),
            ActionView::Finish => None,
        }
    }

    /// Whether the attempt on the address at `index` connects.
    pub open spec fn connects(
        self,
        addresses: Seq<Address>,
        timeout: Option<Duration>,
        index: nat,
    ) -> bool {
        (self.connect)(index, addresses[index as int], timeout) is Ok
    }

    /// The error with which the attempt on the address at `index` fails.
    pub open spec fn error_at(
        self,
        addresses: Seq<Address>,
        timeout: Option<Duration>,
        index: nat,
    ) -> E {
        (self.connect)(index, addresses[index as int], timeout)->Err_0
    }

    /// The index of the first address, from `from` on, to which the attempt
    /// connects.
    pub open spec fn first_connected(
        self,
        addresses: Seq<Address>,
        timeout: Option<Duration>,
        from: nat,
    ) -> Option<nat>
        decreases addresses.len() - from,
    {
        if from >= addresses.len() {
            None
        } else if self.connects(addresses, timeout, from) {
            Some(from)
        } else {
            self.first_connected(addresses, timeout, (from + 1) as nat)
        }
    }

    /// The index behind the last address that a dial attempts, when it
    /// starts at `from`: one past the first that connects, or the number of
    /// addresses.
    pub open spec fn attempts_end(
        self,
        addresses: Seq<Address>,
        timeout: Option<Duration>,
        from: nat,
    ) -> nat {
        match self.first_connected(addresses, timeout, from) {
            Some(index) => index + 1,
            None => addresses.len(),
        }
    }

    /// What a dial comes to on this network.
    ///
    /// A scheme other than `http` is refused. The resolver's failure is the
    /// dial's failure. Of the addresses the first that connects wins. Where
    /// none connects the error of the last attempt is the dial's, and a host
    /// without addresses has a failure of its own.
    pub open spec fn outcome(
        self,
        timeout: Option<Duration>,
        host: Seq<char>,
        port: u16,
        scheme: Seq<char>,
    ) -> Result<nat, ConnectError<E>> {
        if scheme != http() {
            Err(ConnectError::InvalidScheme)
        } else {
            match (self.resolve)(host, port) {
                Err(error) => Err(ConnectError::Resolution(error)),
                Ok(addresses) => match self.first_connected(addresses, timeout, 0) {
                    Some(index) => Ok(index),
                    None => if addresses.len() == 0 {
                        Err(ConnectError::NoAddresses)
                    } else {
                        Err(
                            ConnectError::Connection(
                                self.error_at(addresses, timeout, (addresses.len() - 1) as nat),
                            ),
                        )
                    },
                },
            }
        }
    }

    /// The actions that a dial asks for on this network, in order.
    ///
    /// None for a scheme other than `http`. Else one resolution of the host
    /// and port as given, and then one attempt on each address in the
    /// resolver's order, up to the first that connects.
    pub open spec fn actions(
        self,
        timeout: Option<Duration>,
        host: Seq<char>,
        port: u16,
        scheme: Seq<char>,
    ) -> Seq<ActionView> {
        if scheme != http() {
            Seq::empty()
        } else {
            seq![ActionView::Resolve { host, port }] + match (self.resolve)(host, port) {
                Err(_) => Seq::empty(),
                Ok(addresses) => attempts(
                    addresses,
                    timeout,
                    0,
                    self.attempts_end(addresses, timeout, 0),
                ),
            }
        }
    }
}

/// One attempt on each address from index `from` up to, not including, index
/// `to`, in order, each under `timeout`.
pub open spec fn attempts(
    addresses: Seq<Address>,
    timeout: Option<Duration>,
    from: nat,
    to: nat,
) -> Seq<ActionView> {
    Seq::new(
        (to - from) as nat,
        |i: int|
            ActionView::Attempt {
                index: (from + i) as nat,
                address: addresses[from + i],
                family: addresses[from + i].family(),
                timeout,
            },
    )
}

impl<E> DialView<E> {
    /// The state in which the caller's loop leaves the dial: the loop carries
    /// out the pending action on `network` and reports the answer, until the
    /// dial has ended or `steps` actions are done.
    pub open spec fn run(self, network: Network<E>, steps: nat) -> DialView<E>
        decreases steps,
    {
        if steps == 0 {
            self
        } else {
            match network.answer(self.action()) {
                Some(event) => self.next(event).run(network, (steps - 1) as nat),
                None => self,
            }
        }
    }

    /// The actions that the caller's loop carries out meanwhile, in order.
    pub open spec fn trace(self, network: Network<E>, steps: nat) -> Seq<ActionView>
        decreases steps,
    {
        if steps == 0 {
            Seq::empty()
        } else {
            match network.answer(self.action()) {
                Some(event) => seq![self.action()] + self.next(event).trace(
                    network,
                    (steps - 1) as nat,
                ),
                None => Seq::empty(),
            }
        }
    }
}

} // verus!

//! A dial in progress: the executable state machine.
//!
//! The caller runs the loop. It reads the pending [`Action`], carries it out
//! on the resolver or the network, and reports the [`Event`] with
//! [`Dial::step`]. When the action is [`Action::Finish`] the dial has ended,
//! and [`Dial::into_result`] tells how.

use crate::address::{Address, Family};
use crate::error::ConnectError;
use crate::model::{ActionView, DialView, EventView, Progress};
use crate::scheme::is_http;
use std::time::Duration;
use vstd::prelude::*;

verus! {

/// What a dial asks its caller to do next.
#[derive(Clone, Copy, Debug, PartialEq, Eq)]
pub enum Action<'a> {
    /// Ask the resolver for the addresses of `host` and `port`.
    Resolve { host: &'a str, port: u16 },
    /// Make a socket of `family` and connect it to `address`, the address at
    /// `index` in the resolver's answer. With a `timeout` the attempt is
    /// bounded by it; without one it is an ordinary blocking connect.
    Attempt { index: usize, address: Address, family: Family, timeout: Option<Duration> },
    /// Nothing more: the dial has ended.
    Finish,
}

impl<'a> View for Action<'a> {
    type V = ActionView;

    open spec fn view(&self) -> ActionView {
        match *self {
            Action::Resolve { host, port } => ActionView::Resolve { host: host@, port },
            Action::Attempt { index, address, family, timeout } => ActionView::Attempt {
                index: index as nat,
                address,
                family,
                timeout,
            },
            Action::Finish => ActionView::Finish,
        }
    }
}

/// How an action ended.
#[derive(Debug, PartialEq, Eq)]
pub enum Event<E> {
    /// The resolver answered with these addresses, in this order.
    Resolved(Vec<Address>),
    /// The resolver failed.
    ResolveFailed(E),
    /// The attempt connected.
    Connected,
    /// The attempt failed.
    ConnectFailed(E),
}

impl<E> View for Event<E> {
    type V = EventView<E>;

    open spec fn view(&self) -> EventView<E> {
        match *self {
            Event::Resolved(addresses) => EventView::Resolved(addresses@),
            Event::ResolveFailed(error) => EventView::ResolveFailed(error),
            Event::Connected => EventView::Connected,
            Event::ConnectFailed(error) => EventView::ConnectFailed(error),
        }
    }
}

/// How far a dial has come, as the machine holds it.
enum Stage<E> {
    /// The resolver's answer is awaited.
    Resolving,
    /// The address at `index` is being attempted; `last_error` is the error
    /// of the attempt before it.
    Attempting { addresses: Vec<Address>, index: usize, last_error: Option<E> },
    /// The attempt on the address at `index` connected.
    Connected { index: usize },
    /// The dial failed.
    Failed { error: ConnectError<E> },
}

impl<E> Stage<E> {
    /// The stage as the model sees it.
    spec fn progress(self) -> Progress<E> {
        match self {
            Stage::Resolving => Progress::Resolving,
            Stage::Attempting { addresses, index, last_error } => Progress::Attempting {
                addresses: addresses@,
                index: index as nat,
                last_error,
            },
            Stage::Connected { index } => Progress::Connected { index: index as nat },
            Stage::Failed { error } => Progress::Failed { error },
        }
    }

    /// The stage that follows on `event`.
    fn advance(self, event: Event<E>) -> (next: Stage<E>)
        requires
            self.progress().wf(),
        ensures
            next.progress() == self.progress().next(event@),
            next.progress().wf(),
    {
        match self {
            Stage::Resolving => match event {
                Event::Resolved(addresses) => {
                    if addresses.len() == 0 {
                        exhausted(None)
                    } else {
                        Stage::Attempting { addresses, index: 0, last_error: None }
                    }
                },
                Event::ResolveFailed(error) => Stage::Failed {
                    error: ConnectError::Resolution(error),
                },
                _ => Stage::Resolving,
            },
            Stage::Attempting { addresses, index, last_error } => match event {
                Event::Connected => Stage::Connected { index },
                Event::ConnectFailed(error) => {
                    let last_error = Some(error);
                    let count: usize = addresses.len();
                    if index + 1 < count {
                        Stage::Attempting { addresses, index: index + 1, last_error }
                    } else {
                        exhausted(last_error)
                    }
                },
                _ => Stage::Attempting { addresses, index, last_error },
            },
            Stage::Connected { index } => Stage::Connected { index },
            Stage::Failed { error } => Stage::Failed { error },
        }
    }
}

/// The end of a dial that connected to no address: the last error on record,
/// or, where no attempt was made, the failure of a host without addresses.
fn exhausted<E>(last_error: Option<E>) -> (stage: Stage<E>)
    ensures
        stage == (Stage::Failed {
            error: match last_error {
                Some(error) => ConnectError::Connection(error),
                None => ConnectError::NoAddresses,
            },
        }),
{
    match last_error {
        Some(error) => Stage::Failed { error: ConnectError::Connection(error) },
        None => Stage::Failed { error: ConnectError::NoAddresses },
    }
}

/// One dial in progress.
pub struct Dial<'a, E> {
    host: &'a str,
    port: u16,
    timeout: Option<Duration>,
    stage: Stage<E>,
}

impl<'a, E> View for Dial<'a, E> {
    type V = DialView<E>;

    closed spec fn view(&self) -> DialView<E> {
        DialView {
            host: self.host@,
            port: self.port,
            timeout: self.timeout,
            progress: self.stage.progress(),
        }
    }
}

impl<'a, E> Dial<'a, E> {
    /// A dial is always in a state that the model calls well formed.
    #[verifier::type_invariant]
    spec fn inv(self) -> bool {
        self@.wf()
    }

    /// Begins a dial of `host` and `port` under `scheme`, with `timeout` as
    /// the bound on each attempt.
    pub(crate) fn begin(
        timeout: Option<Duration>,
        host: &'a str,
        port: u16,
        scheme: &str,
    ) -> (dial: Self)
        ensures
            dial@ == DialView::<E>::start(timeout, host@, port, scheme@),
    {
        let stage = if is_http(scheme) {
            Stage::Resolving
        } else {
            Stage::Failed { error: ConnectError::InvalidScheme }
        };
        Dial { host, port, timeout, stage }
    }

    /// The action that the dial asks for now.
    pub fn action(&self) -> (action: Action<'a>)
        ensures
            action@ == self@.action(),
            self@.wf(),
    {
        proof {
            use_type_invariant(self);
        }
        match &self.stage {
            Stage::Resolving => Action::Resolve { host: self.host, port: self.port },
            Stage::Attempting { addresses, index, .. } => {
                let address = addresses[*index];
                Action::Attempt {
                    index: *index,
                    address,
                    family: address.family(),
                    timeout: self.timeout,
                }
            },
            _ => Action::Finish,
        }
    }

    /// Reports how the pending action ended, and moves the dial on.
    ///
    /// An event that does not answer the pending action changes nothing; a
    /// dial that has ended stays as it is.
    pub fn step(&mut self, event: Event<E>)
        ensures
            final(self)@ == old(self)@.next(event@),
            final(self)@.wf(),
    {
        proof {
            use_type_invariant(&*self);
        }
        let mut stage = Stage::Resolving;
        core::mem::swap(&mut self.stage, &mut stage);
        self.stage = stage.advance(event);
    }

    /// What the dial came to: the index of the address that connected, or the
    /// failure; `None` while the dial has not ended.
    pub fn into_result(self) -> (result: Option<Result<usize, ConnectError<E>>>)
        ensures
            self@.result() == match result {
                Some(Ok(index)) => Some(Ok(index as nat)),
                Some(Err(error)) => Some(Err(error)),
                None => None,
            },
    {
        match self.stage {
            Stage::Connected { index } => Some(Ok(index)),
            Stage::Failed { error } => Some(Err(error)),
            _ => None,
        }
    }
}

} // verus!

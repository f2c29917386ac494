//! The connector: an optional bound on each connection attempt, and the
//! beginning of a dial under it.

use crate::dial::Dial;
use crate::model::DialView;
use std::time::Duration;
use vstd::prelude::*;

verus! {

/// A connector which offers a connection timeout.
///
/// The timeout bounds every single connection attempt; `None` means that an
/// attempt may take as long as the transport lets it.
pub struct HttpTimeoutConnector {
    connect_timeout: Option<Duration>,
}

impl View for HttpTimeoutConnector {
    type V = Option<Duration>;

    /// The configured timeout.
    closed spec fn view(&self) -> Option<Duration> {
        self.connect_timeout
    }
}

impl HttpTimeoutConnector {
    /// Creates a new `HttpTimeoutConnector`.
    ///
    /// The connector initially has no connection timeout.
    pub fn new() -> (connector: HttpTimeoutConnector)
        ensures
            connector@ == None::<Duration>,
    {
        HttpTimeoutConnector { connect_timeout: None }
    }

    /// Returns the connection timeout.
    pub fn connect_timeout(&self) -> (timeout: Option<Duration>)
        ensures
            timeout == self@,
    {
        self.connect_timeout
    }

    /// Sets the connection timeout.
    ///
    /// The value is taken as it is: no duration is refused, a zero one
    /// included.
    pub fn set_connect_timeout(&mut self, timeout: Option<Duration>)
        ensures
            final(self)@ == timeout,
    {
        self.connect_timeout = timeout;
    }

    /// Begins a dial of `host` and `port` under `scheme`.
    ///
    /// The dial takes the connector's timeout as it is now and keeps it to
    /// its end, whatever is set on the connector afterwards. A scheme other
    /// than `http` ends the dial at once, before anything is asked of the
    /// resolver or the network. Host and port are not looked at: they go to
    /// the resolver as they are.
    pub fn connect<'a, E>(&self, host: &'a str, port: u16, scheme: &str) -> (dial: Dial<'a, E>)
        ensures
            dial@ == DialView::<E>::start(self@, host@, port, scheme@),
    {
        Dial::begin(self.connect_timeout, host, port, scheme)
    }
}

} // verus!

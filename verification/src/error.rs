//! The ways in which a dial fails.

use vstd::prelude::*;

verus! {

/// Why a dial failed. `E` is the transport's own error type; a value of it is
/// handed on as it came, never read.
#[derive(Debug, PartialEq, Eq)]
pub enum ConnectError<E> {
    /// The scheme is not the one that the connector supports. Nothing was
    /// resolved and nothing attempted.
    InvalidScheme,
    /// The resolver failed; this is its error.
    Resolution(E),
    /// The resolver answered with no address at all.
    NoAddresses,
    /// Every address was attempted and every attempt failed; this is the
    /// error of the last attempt.
    Connection(E),
}

impl<E> ConnectError<E> {
    /// Whether the failure lies in what the caller asked for, not in the
    /// network.
    pub open spec fn spec_is_invalid_input(&self) -> bool {
        *self is InvalidScheme || *self is NoAddresses
    }

    /// The text that goes with a failure of the caller's input.
    pub open spec fn spec_message(&self) -> Option<Seq<char>> {
        match *self {
            ConnectError::InvalidScheme => Some("invalid scheme for http"@),
            ConnectError::NoAddresses => Some("could not resolve to any addresses"@),
            _ => None,
        }
    }

    /// Tells a misuse (a wrong scheme, a host without addresses) from a
    /// failure of the network (a resolver's or a transport's error).
    #[verifier::when_used_as_spec(spec_is_invalid_input)]
    pub fn is_invalid_input(&self) -> (invalid: bool)
        ensures
            invalid == self.spec_is_invalid_input(),
    {
        match self {
            ConnectError::InvalidScheme => true,
            ConnectError::NoAddresses => true,
            _ => false,
        }
    }

    /// The text of a failure of the caller's input; `None` for a failure of
    /// the network, which brings its own.
    pub fn message(&self) -> (message: Option<&'static str>)
        ensures
            self.spec_message() == match message {
                Some(text) => Some(text@),
                None => None,
            },
    {
        match self {
            ConnectError::InvalidScheme => Some("invalid scheme for http"),
            ConnectError::NoAddresses => Some("could not resolve to any addresses"),
            _ => None,
        }
    }
}

} // verus!

//! Socket addresses as plain values, and the family each belongs to.

use vstd::prelude::*;

verus! {

/// The class of a socket address. It decides what kind of socket an attempt
/// on the address needs.
#[derive(Clone, Copy, Debug, PartialEq, Eq, Structural)]
pub enum Family {
    /// Internet protocol, version 4.
    V4,
    /// Internet protocol, version 6.
    V6,
}

/// One resolved socket address.
#[derive(Clone, Copy, Debug, PartialEq, Eq)]
pub enum Address {
    /// An address of version 4: four octets and a port.
    V4 { octets: [u8; 4], port: u16 },
    /// An address of version 6: eight segments, a port, the flow information
    /// and the scope.
    V6 { segments: [u16; 8], port: u16, flowinfo: u32, scope_id: u32 },
}

impl Address {
    /// The family that the address belongs to.
    pub open spec fn spec_family(&self) -> Family {
        match *self {
            Address::V4 { .. } => Family::V4,
            Address::V6 { .. } => Family::V6,
        }
    }

    /// Returns the family that the address belongs to.
    #[verifier::when_used_as_spec(spec_family)]
    pub fn family(&self) -> (family: Family)
        ensures
            family == self.spec_family(),
    {
        match self {
            Address::V4 { .. } => Family::V4,
            Address::V6 { .. } => Family::V6,
        }
    }
}

} // verus!

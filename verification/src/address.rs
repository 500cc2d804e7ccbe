//! Dial targets.
//!
//! An `Address` identifies where one connection is to be established. It is
//! immutable once constructed and carried through the connector unchanged:
//! no variant is rewritten, no path byte is transformed.

use vstd::prelude::*;

verus! {

/// A tagged dial target.
#[derive(Clone, Debug, PartialEq, Eq)]
pub enum Address {
    /// An IP endpoint: the address octets (four for IPv4, sixteen for IPv6)
    /// and a port.
    Ip { octets: Vec<u8>, port: u16 },
    /// A Unix domain socket, addressed by its exact filesystem path bytes.
    Unix { path: Vec<u8> },
    /// A named host, left to the transport maker to resolve, and a port.
    Named { host: Vec<u8>, port: u16 },
}

} // verus!

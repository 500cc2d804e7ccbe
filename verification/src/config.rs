//! Transport construction tuning.
//!
//! A `TransportConfig` carries the optional timeouts applied when a connector
//! is built; an absent field means the transport maker's default. A
//! `TlsConfig` carries what the TLS transport maker needs beyond that.

use vstd::prelude::*;

verus! {

/// Optional transport tuning, fixed at connector construction.
#[derive(Clone, Copy, Debug, PartialEq, Eq)]
pub struct TransportConfig {
    /// Connect timeout in milliseconds; `None` means the maker's default.
    pub connect_timeout_ms: Option<u64>,
    /// Read timeout in milliseconds; `None` means the maker's default.
    pub read_timeout_ms: Option<u64>,
    /// Write timeout in milliseconds; `None` means the maker's default.
    pub write_timeout_ms: Option<u64>,
}

impl TransportConfig {
    /// The configuration that leaves every knob at the maker's default.
    pub open spec fn spec_unspecified() -> TransportConfig {
        TransportConfig {
            connect_timeout_ms: None,
            read_timeout_ms: None,
            write_timeout_ms: None,
        }
    }

    /// Builds the configuration that leaves every knob at the maker's default.
    pub fn unspecified() -> (c: TransportConfig)
        ensures
            c == TransportConfig::spec_unspecified(),
    {
        TransportConfig { connect_timeout_ms: None, read_timeout_ms: None, write_timeout_ms: None }
    }
}

impl Default for TransportConfig {
    /// The default configuration specifies nothing.
    fn default() -> (c: TransportConfig)
        ensures
            c == TransportConfig::spec_unspecified(),
    {
        TransportConfig::unspecified()
    }
}

/// TLS client configuration handed to the TLS transport maker.
#[derive(Clone, Debug, PartialEq, Eq)]
pub struct TlsConfig {
    /// DER-encoded certificates trusted as roots, besides the platform's own.
    pub trust_roots: Vec<Vec<u8>>,
    /// Overrides the server name presented during the handshake; `None`
    /// derives it from the target address.
    pub server_name: Option<Vec<u8>>,
}

} // verus!

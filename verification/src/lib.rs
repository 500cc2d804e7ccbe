//! Connection-establishment adapter for an RPC client stack.
//!
//! The library models and verifies the logic of a connector layer: selecting
//! a plain or TLS transport maker at construction, smuggling a concrete dial
//! target past a URI-only service interface through a scoped, read-once
//! context slot, and bridging one established byte-stream connection under
//! two asynchronous stream contracts with exact buffer bookkeeping.

mod address;
mod bridge;
mod config;
mod connector;
mod context;
mod error;
mod hex;
mod poll;

pub use address::Address;
pub use bridge::{
    lemma_eof_only_at_close, lemma_shutdown_idempotent, lemma_write_read_round_trip, spec_deliver,
    spec_flush, spec_read, spec_shutdown, spec_write, ConnectionWrapper, CursorBuf, FilledBuf,
    PoolMetadata, RawConnection, StreamModel,
};
pub use config::{TlsConfig, TransportConfig};
pub use connector::{
    finish_dial, lemma_serve_dials_bound_target, lemma_serve_unbound_faults, spec_serve, Connector,
    ConnectorInner, DialPlan, PlainTransport, TlsTransport, TransportKind,
};
pub use context::TargetContext;
pub use error::{normalize_fault, IoFault, ServeFault, TransportFault};
pub use hex::{from_hex, unix_target_from_hex, HexError};
pub use poll::Polled;

//! Error taxonomy of the connector layer.
//!
//! Dial and stream failures are surfaced as one I/O error category carrying
//! the underlying cause; invoking the URI entry point without a bound target
//! is a distinct wiring fault, never a recoverable I/O condition.

use vstd::prelude::*;

verus! {

/// The underlying cause of a failed transport operation.
#[derive(Clone, Copy, Debug, PartialEq, Eq)]
pub enum TransportFault {
    /// The peer refused the connection.
    Refused,
    /// Connection establishment or an I/O operation timed out.
    TimedOut,
    /// The target name could not be resolved.
    NameResolution,
    /// The TLS handshake failed.
    TlsHandshake,
    /// The connection was already closed.
    Closed,
    /// Any other transport-maker-specific failure.
    Other,
}

/// The single I/O error category this layer reports: whatever went wrong in
/// the transport, normalized to one kind with its cause attached.
#[derive(Clone, Copy, Debug, PartialEq, Eq)]
pub struct IoFault {
    /// The underlying cause.
    pub cause: TransportFault,
}

/// Normalizes a transport failure into the one I/O error category, keeping
/// the cause intact.
pub fn normalize_fault(cause: TransportFault) -> (e: IoFault)
    ensures
        e.cause == cause,
{
    IoFault { cause }
}

/// Fault of the URI entry point: it ran with no target bound in the scoped
/// context, which means the two layers were wired incorrectly. There is no
/// fallback address and no recovery.
#[derive(Clone, Copy, Debug, PartialEq, Eq)]
pub enum ServeFault {
    /// No target context entry was active for this call.
    ContextMissing,
}

} // verus!

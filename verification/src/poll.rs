//! Poll-style outcomes.
//!
//! Every operation of this layer is a non-blocking step driven by an outside
//! cooperative scheduler: it either completes with a value or reports "not
//! ready, retry on wake".

use vstd::prelude::*;

verus! {

/// The outcome of one poll step.
#[derive(Clone, Copy, Debug, PartialEq, Eq)]
pub enum Polled<T> {
    /// The operation completed with this value.
    Ready(T),
    /// The operation could not make progress yet; the caller is woken later.
    Pending,
}

} // verus!

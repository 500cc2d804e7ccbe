//! The target context channel.
//!
//! The generic client's service interface accepts only a URI, which cannot
//! carry a structured dial target. The caller therefore binds the real
//! `Address` into a `TargetContext` scoped to exactly one call, and the URI
//! entry point reads it from there. The entry is read once: after a read the
//! slot is consumed, and a call tree never observes another tree's binding,
//! because each call carries its own context value.

use vstd::prelude::*;

use crate::address::Address;

verus! {

/// A request-scoped, read-once slot carrying the intended dial target.
pub struct TargetContext {
    slot: Option<Address>,
}

impl TargetContext {
    /// Whether a target is bound and not yet read.
    pub closed spec fn is_bound(self) -> bool {
        self.slot is Some
    }

    /// The bound target.
    pub closed spec fn target(self) -> Address
        recommends
            self.is_bound(),
    {
        self.slot->Some_0
    }

    /// Binds `target` for the extent of one call.
    pub fn bind(target: Address) -> (c: TargetContext)
        ensures
            c.is_bound(),
            c.target() == target,
    {
        TargetContext { slot: Some(target) }
    }

    /// The context of a call that never bound a target.
    pub fn unbound() -> (c: TargetContext)
        ensures
            !c.is_bound(),
    {
        TargetContext { slot: None }
    }

    /// Reads the bound target, consuming the entry: a second read within the
    /// same call finds nothing, and an unbound context yields nothing.
    pub fn read_target(&mut self) -> (r: Option<Address>)
        ensures
            old(self).is_bound() ==> r == Some(old(self).target()),
            !old(self).is_bound() ==> r is None,
            !final(self).is_bound(),
    {
        self.slot.take()
    }
}

} // verus!

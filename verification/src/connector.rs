//! The connector: one value unifying the plain and TLS transport makers.
//!
//! A `Connector` is built once, with an optional `TransportConfig` and
//! optionally a TLS configuration; the chosen variant never changes
//! afterwards. It exposes two call conventions: planning a dial for an
//! explicit `Address`, and the URI entry point, which resolves the real
//! target from the scoped [`TargetContext`](crate::context::TargetContext)
//! and ignores the URI itself.

use vstd::prelude::*;

use crate::address::Address;
use crate::config::{TlsConfig, TransportConfig};
use crate::context::TargetContext;
use crate::error::{IoFault, ServeFault, TransportFault};
use crate::error::normalize_fault;
use crate::poll::Polled;

verus! {

/// Which transport maker a plan selects.
#[derive(Clone, Copy, Debug, PartialEq, Eq)]
pub enum TransportKind {
    /// The plain (non-TLS) maker.
    Plain,
    /// The TLS maker.
    Tls,
}

/// The plain transport maker's settings.
#[derive(Clone, Copy, Debug, PartialEq, Eq)]
pub struct PlainTransport {
    /// The timeouts applied at construction.
    pub cfg: TransportConfig,
}

/// The TLS transport maker's settings.
#[derive(Clone, Debug, PartialEq, Eq)]
pub struct TlsTransport {
    /// The timeouts applied at construction.
    pub cfg: TransportConfig,
    /// The TLS client configuration.
    pub tls: TlsConfig,
}

/// The transport maker variant held by a connector: plain or TLS, a closed
/// set fixed at construction.
#[derive(Clone, Debug)]
pub enum ConnectorInner {
    /// The plain maker.
    Plain(PlainTransport),
    /// The TLS maker.
    Tls(TlsTransport),
}

/// Unifies the two transport maker variants behind one value. Clones share
/// the same configuration, so many concurrent calls can reuse one connector.
#[derive(Clone, Debug)]
pub struct Connector {
    inner: ConnectorInner,
}

/// Everything one dial needs from the connector: the selected maker and the
/// exact target, untouched.
#[derive(Clone, Debug, PartialEq, Eq)]
pub struct DialPlan {
    /// The maker variant the connector was built with.
    pub kind: TransportKind,
    /// The timeouts that maker was built with.
    pub cfg: TransportConfig,
    /// The address to dial, exactly as the caller supplied it.
    pub target: Address,
}

impl Connector {
    /// The variant this connector was built with.
    pub closed spec fn spec_inner(self) -> ConnectorInner {
        self.inner
    }

    /// The effective configuration of a construction argument: the given one,
    /// or the all-defaults configuration when absent.
    pub open spec fn spec_effective(cfg: Option<TransportConfig>) -> TransportConfig {
        match cfg {
            Some(c) => c,
            None => TransportConfig::spec_unspecified(),
        }
    }

    /// The timeouts of the selected maker.
    pub open spec fn spec_cfg(self) -> TransportConfig {
        match self.spec_inner() {
            ConnectorInner::Plain(p) => p.cfg,
            ConnectorInner::Tls(t) => t.cfg,
        }
    }

    /// The plan this connector produces for `target`: its own maker variant
    /// and configuration, and the target exactly as given.
    pub open spec fn spec_plan(self, target: Address) -> DialPlan {
        DialPlan {
            kind: match self.spec_inner() {
                ConnectorInner::Plain(..) => TransportKind::Plain,
                ConnectorInner::Tls(..) => TransportKind::Tls,
            },
            cfg: self.spec_cfg(),
            target,
        }
    }

    /// Builds a plain connector. Construction never fails; configuration
    /// trouble surfaces at the first dial.
    pub fn new(cfg: Option<TransportConfig>) -> (c: Connector)
        ensures
            c.spec_inner() == ConnectorInner::Plain(
                PlainTransport { cfg: Connector::spec_effective(cfg) },
            ),
    {
        let effective = match cfg {
            Some(c) => c,
            None => TransportConfig::unspecified(),
        };
        Connector { inner: ConnectorInner::Plain(PlainTransport { cfg: effective }) }
    }

    /// Builds a TLS connector with the given TLS client configuration.
    /// Construction never fails; configuration trouble surfaces at the first
    /// dial.
    pub fn new_with_tls(cfg: Option<TransportConfig>, tls_config: TlsConfig) -> (c: Connector)
        ensures
            c.spec_inner() == ConnectorInner::Tls(
                TlsTransport { cfg: Connector::spec_effective(cfg), tls: tls_config },
            ),
    {
        let effective = match cfg {
            Some(c) => c,
            None => TransportConfig::unspecified(),
        };
        Connector { inner: ConnectorInner::Tls(TlsTransport { cfg: effective, tls: tls_config }) }
    }

    /// The TLS client configuration, for the TLS variant.
    pub fn tls_config(&self) -> (r: Option<&TlsConfig>)
        ensures
            match self.spec_inner() {
                ConnectorInner::Tls(t) => r == Some(&t.tls),
                ConnectorInner::Plain(..) => r is None,
            },
    {
        match &self.inner {
            ConnectorInner::Tls(t) => Some(&t.tls),
            ConnectorInner::Plain(..) => None,
        }
    }

    /// Plans one dial: the maker selected at construction is to be invoked
    /// with exactly the given address. Repeated calls plan fresh, independent
    /// connections; nothing is cached or mutated here.
    pub fn plan_dial(&self, target: Address) -> (p: DialPlan)
        ensures
            p == self.spec_plan(target),
    {
        match &self.inner {
            ConnectorInner::Plain(m) => DialPlan {
                kind: TransportKind::Plain,
                cfg: m.cfg,
                target,
            },
            ConnectorInner::Tls(m) => DialPlan { kind: TransportKind::Tls, cfg: m.cfg, target },
        }
    }

    /// The connector accepts a call at any time: there is no backpressure at
    /// this level.
    pub fn poll_ready(&self) -> (r: Polled<Result<(), IoFault>>)
        ensures
            r == Polled::Ready(Result::<(), IoFault>::Ok(())),
    {
        Polled::Ready(Ok(()))
    }

    /// The URI entry point's decision: resolve the real target from the
    /// scoped context and plan the dial with it. The URI is a structural
    /// placeholder demanded by the generic client's interface and carries no
    /// routing information; nothing about the result depends on it. With no
    /// active binding the call faults — there is no fallback address.
    pub fn serve(&self, ctx: &mut TargetContext, _uri: &[u8]) -> (r: Result<DialPlan, ServeFault>)
        ensures
            r == spec_serve(*self, *old(ctx)),
            !final(ctx).is_bound(),
    {
        match ctx.read_target() {
            Some(target) => Ok(self.plan_dial(target)),
            None => Err(ServeFault::ContextMissing),
        }
    }
}

impl Default for Connector {
    /// The default connector is plain, with every knob at the maker's
    /// default.
    fn default() -> (c: Connector)
        ensures
            c.spec_inner() == ConnectorInner::Plain(
                PlainTransport { cfg: TransportConfig::spec_unspecified() },
            ),
    {
        Connector::new(None)
    }
}

/// What the URI entry point returns, as a function of the connector and the
/// context alone: the URI does not appear.
pub open spec fn spec_serve(c: Connector, ctx: TargetContext) -> Result<DialPlan, ServeFault> {
    if ctx.is_bound() {
        Ok(c.spec_plan(ctx.target()))
    } else {
        Err(ServeFault::ContextMissing)
    }
}

/// Completes a dial from the transport maker's outcome: a fresh connection is
/// passed through untouched, and every failure is normalized to the single
/// I/O error category with its cause kept — never retried here.
pub fn finish_dial<C>(outcome: Result<C, TransportFault>) -> (r: Result<C, IoFault>)
    ensures
        outcome matches Ok(conn) ==> r == Result::<C, IoFault>::Ok(conn),
        outcome matches Err(f) ==> r == Result::<C, IoFault>::Err((IoFault { cause: f })),
{
    match outcome {
        Ok(conn) => Ok(conn),
        Err(f) => Err(normalize_fault(f)),
    }
}

/// Binding a target and then serving within that scope dials exactly that
/// target, whatever the URI holds: the served plan is a function of the
/// connector and the bound address alone.
pub proof fn lemma_serve_dials_bound_target(c: Connector, ctx: TargetContext)
    requires
        ctx.is_bound(),
    ensures
        spec_serve(c, ctx) == Ok::<DialPlan, ServeFault>(c.spec_plan(ctx.target())),
        spec_serve(c, ctx)->Ok_0.target == ctx.target(),
{
}

/// Serving with no active binding faults deterministically: the outcome is
/// the context-missing fault, never a plan for some fallback address.
pub proof fn lemma_serve_unbound_faults(c: Connector, ctx: TargetContext)
    requires
        !ctx.is_bound(),
    ensures
        spec_serve(c, ctx) == Err::<DialPlan, ServeFault>(ServeFault::ContextMissing),
{
}

} // verus!

//! The proxy's configuration: where it listens, where it forwards to, the
//! pool of upstream connections, and where it reports finished exchanges.

use vstd::prelude::*;

verus! {

/// What a builder holds so far.
pub struct ProxyBuilderView<Addr, P> {
    pub bind_addr: Option<Addr>,
    pub remote_addr: Option<Addr>,
    pub pool: Option<P>,
}

/// Collects a proxy's configuration.
pub struct ProxyBuilder<Addr, P> {
    bind_addr: Option<Addr>,
    remote_addr: Option<Addr>,
    pool: Option<P>,
}

impl<Addr, P> View for ProxyBuilder<Addr, P> {
    type V = ProxyBuilderView<Addr, P>;

    closed spec fn view(&self) -> ProxyBuilderView<Addr, P> {
        ProxyBuilderView { bind_addr: self.bind_addr, remote_addr: self.remote_addr, pool: self.pool }
    }
}

/// A configured proxy: it listens on `bind_addr`, forwards to
/// `remote_addr` through the connections of `pool` (or, without one,
/// through connections it makes to `remote_addr` as needed), and sends each
/// finished exchange to `events`, once something accepts them.
pub struct Proxy<Addr, P, S> {
    pub bind_addr: Addr,
    pub remote_addr: Addr,
    pub pool: Option<P>,
    pub events: Option<S>,
}

impl<Addr, P> ProxyBuilder<Addr, P> {
    /// A builder that holds nothing yet.
    pub fn new() -> (builder: Self)
        ensures
            builder@ == (ProxyBuilderView::<Addr, P> { bind_addr: None, remote_addr: None, pool: None }),
    {
        ProxyBuilder { bind_addr: None, remote_addr: None, pool: None }
    }

    /// The same builder, listening on `bind_addr`.
    pub fn bind_addr(self, bind_addr: Addr) -> (builder: Self)
        ensures
            builder@ == (ProxyBuilderView { bind_addr: Some(bind_addr), ..self@ }),
    {
        ProxyBuilder { bind_addr: Some(bind_addr), ..self }
    }

    /// The same builder, forwarding to `remote_addr`.
    pub fn remote_addr(self, remote_addr: Addr) -> (builder: Self)
        ensures
            builder@ == (ProxyBuilderView { remote_addr: Some(remote_addr), ..self@ }),
    {
        ProxyBuilder { remote_addr: Some(remote_addr), ..self }
    }

    /// The same builder, using the connections of `pool`.
    pub fn with_pool(self, pool: P) -> (builder: Self)
        ensures
            builder@ == (ProxyBuilderView { pool: Some(pool), ..self@ }),
    {
        ProxyBuilder { pool: Some(pool), ..self }
    }

    /// Whether the builder holds an address to listen on.
    pub fn has_bind_addr(&self) -> (r: bool)
        ensures
            r == self@.bind_addr is Some,
    {
        self.bind_addr.is_some()
    }

    /// Whether the builder holds an address to forward to.
    pub fn has_remote_addr(&self) -> (r: bool)
        ensures
            r == self@.remote_addr is Some,
    {
        self.remote_addr.is_some()
    }

    /// The proxy configured so far; both addresses are required.
    pub fn build<S>(self) -> (proxy: Proxy<Addr, P, S>)
        requires
            self@.bind_addr is Some,
            self@.remote_addr is Some,
        ensures
            proxy.bind_addr == self@.bind_addr->Some_0,
            proxy.remote_addr == self@.remote_addr->Some_0,
            proxy.pool == self@.pool,
            proxy.events is None,
    {
        let ProxyBuilder { bind_addr, remote_addr, pool } = self;
        Proxy { bind_addr: bind_addr.unwrap(), remote_addr: remote_addr.unwrap(), pool, events: None }
    }
}

impl<Addr, P, S> Proxy<Addr, P, S> {
    /// A builder for a proxy.
    pub fn builder() -> (builder: ProxyBuilder<Addr, P>)
        ensures
            builder@ == (ProxyBuilderView::<Addr, P> { bind_addr: None, remote_addr: None, pool: None }),
    {
        ProxyBuilder::new()
    }

    /// Sends finished exchanges to `sender` from now on; this can be done
    /// once.
    pub fn accept_events(&mut self, sender: S)
        requires
            old(self).events is None,
        ensures
            *final(self) == after_accept(*old(self), sender),
    {
        self.events = Some(sender);
    }
}

/// The proxy after `accept_events` with `sender`.
pub open spec fn after_accept<Addr, P, S>(proxy: Proxy<Addr, P, S>, sender: S) -> Proxy<Addr, P, S> {
    Proxy { events: Some(sender), ..proxy }
}

/// A proxy accepts events once: after `accept_events`, whatever the proxy
/// was, the requirement of another `accept_events` fails, and the sender
/// set stays the one given.
pub proof fn law_events_accepted_once<Addr, P, S>(proxy: Proxy<Addr, P, S>, sender: S)
    ensures
        !(after_accept(proxy, sender).events is None),
        after_accept(proxy, sender).events == Some(sender),
{
}

} // verus!

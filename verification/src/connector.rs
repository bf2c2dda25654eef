//! The connector, and a connect on its way through the proxy.
//!
//! The handshake with the proxy is the caller's to run. A call on the
//! connector says what to ask of it: which proxy to dial, and which
//! destination to name to it. Once the handshake has ended, its outcome is
//! handed back and the connect is completed here.

use crate::authority::format_authority;
use crate::connection::Connection;
use crate::error::to_connect_error;
use crate::error::ConnectError;
use crate::identity::uri_accepts;
use crate::identity::Identity;
use crate::identity::MalformedIdentity;
use crate::request::ConnectRequest;
use crate::request::Destination;
use vstd::prelude::*;

verus! {

/// One use of a connector.
pub ghost enum Use {
    /// A readiness check.
    Poll,
    /// A call for a destination.
    Call(Destination),
}

/// What a pending connect is: the proxy to dial and the destination to name
/// to it.
pub ghost struct PendingView<P> {
    pub proxy: P,
    pub destination: Destination,
}

/// How a connect ends.
pub ghost enum Resolution<S, E> {
    /// The handshake gave a stream, and the destination's identity goes
    /// with it.
    Connected { stream: S, identity: Seq<char> },
    /// The handshake failed.
    Failed { cause: E },
    /// The handshake gave a stream, but the destination's identity text is
    /// no URI.
    Malformed { identity: Seq<char> },
}

/// What completing a connect returns. The inner result is the connect's
/// own: a connection, or the connector's error. The outer error tells of a
/// request whose destination has no identity.
pub type Completed<S, E> = Result<Result<Connection<S>, ConnectError<E>>, MalformedIdentity>;

/// How the connect for `destination` ends when the handshake ends in
/// `outcome`. The proxy has no part in it.
pub open spec fn resolution<S, E>(destination: Destination, outcome: Result<S, E>) -> Resolution<
    S,
    E,
> {
    match outcome {
        Err(cause) => Resolution::Failed { cause },
        Ok(stream) => if uri_accepts(destination.identity()) {
            Resolution::Connected { stream, identity: destination.identity() }
        } else {
            Resolution::Malformed { identity: destination.identity() }
        },
    }
}

/// What a completed connect tells its caller.
pub open spec fn observed<S, E>(r: Completed<S, E>) -> Resolution<S, E> {
    match r {
        Ok(Ok(conn)) => Resolution::Connected { stream: conn@.stream, identity: conn@.identity },
        Ok(Err(err)) => Resolution::Failed { cause: err@ },
        Err(refused) => Resolution::Malformed { identity: refused@ },
    }
}

/// A connector that tunnels through one SOCKS5 proxy. It holds the proxy's
/// address and nothing else.
#[derive(Debug)]
pub struct SocksConnector<P>(P);

impl<P> View for SocksConnector<P> {
    type V = P;

    closed spec fn view(&self) -> P {
        self.0
    }
}

impl<P: Clone> Clone for SocksConnector<P> {
    /// A connector for the same proxy: its address is a clone of this one's.
    fn clone(&self) -> (connector: Self)
        ensures
            cloned(self@, connector@),
    {
        SocksConnector(self.0.clone())
    }
}

/// A connect that was asked for and has not ended yet.
#[derive(Debug)]
pub struct PendingConnect<P> {
    proxy: P,
    request: ConnectRequest,
}

impl<P> View for PendingConnect<P> {
    type V = PendingView<P>;

    closed spec fn view(&self) -> PendingView<P> {
        PendingView { proxy: self.proxy, destination: self.request@ }
    }
}

/// Starts a connect to the destination of `req` through `proxy`.
pub fn connect_socks<P>(proxy: P, req: ConnectRequest) -> (pending: PendingConnect<P>)
    ensures
        pending@ == (PendingView { proxy, destination: req@ }),
{
    PendingConnect { proxy, request: req }
}

impl<P> SocksConnector<P> {
    /// Whether the connector takes a request now: always.
    pub open spec fn ready(self) -> bool {
        true
    }

    /// The connector after one use.
    pub open spec fn step(self, u: Use) -> Self {
        self
    }

    /// The connector after `uses`, first to last.
    pub open spec fn run(self, uses: Seq<Use>) -> Self
        decreases uses.len(),
    {
        if uses.len() == 0 {
            self
        } else {
            self.run(uses.drop_last()).step(uses.last())
        }
    }

    /// The connect that a call for `destination` starts.
    pub open spec fn pending(self, destination: Destination) -> PendingView<P> {
        PendingView { proxy: self@, destination }
    }

    /// A connector for the proxy at `proxy`. The address is taken as it is:
    /// whether anything answers there shows when a handshake is run.
    pub fn new(proxy: P) -> (connector: Self)
        ensures
            connector@ == proxy,
    {
        SocksConnector(proxy)
    }

    /// Says whether the connector takes a request now. It always does, and
    /// asking changes nothing.
    pub fn poll_ready(&mut self) -> (ready: bool)
        ensures
            ready,
            ready == old(self).ready(),
            *final(self) == old(self).step(Use::Poll),
            *final(self) == *old(self),
    {
        true
    }

    /// Starts a connect to the destination of `req` through the connector's
    /// proxy. The connector is left as it was.
    pub fn call(&mut self, req: ConnectRequest) -> (pending: PendingConnect<P>) where P: Copy
        ensures
            pending@ == old(self).pending(req@),
            *final(self) == old(self).step(Use::Call(req@)),
            *final(self) == *old(self),
    {
        connect_socks(self.0, req)
    }

    /// Connects to the destination of `req`, with `handshake` run in place:
    /// it is called once, with the connector's proxy and the request's host
    /// and port, and the connect is completed with what it returns.
    pub fn connect<S, E, F>(&mut self, req: ConnectRequest, handshake: F) -> (r: Completed<
        S,
        E,
    >) where P: Copy, F: FnOnce(&P, &str, u16) -> Result<S, E>
        requires
            forall|domain: &str|
                domain@ == req@.host ==> call_requires(
                    handshake,
                    (&old(self)@, domain, req@.port),
                ),
        ensures
            *final(self) == *old(self),
            exists|domain: &str, outcome: Result<S, E>|
                domain@ == req@.host && call_ensures(
                    handshake,
                    (&old(self)@, domain, req@.port),
                    outcome,
                ) && observed(r) == resolution(req@, outcome),
    {
        let pending = self.call(req);
        let domain = pending.domain();
        let ghost named = domain;
        let outcome = handshake(pending.proxy(), domain, pending.port());
        let ghost seen = outcome;
        let r = pending.complete(outcome);
        assert(call_ensures(handshake, (&old(self)@, named, req@.port), seen));
        r
    }
}

impl<P> PendingConnect<P> {
    /// The proxy to dial.
    pub fn proxy(&self) -> (proxy: &P)
        ensures
            *proxy == self@.proxy,
    {
        &self.proxy
    }

    /// The domain name to hand to the proxy: the host of the request, as
    /// text.
    pub fn domain(&self) -> (domain: &str)
        ensures
            domain@ == self@.destination.host,
    {
        self.request.host()
    }

    /// The port to hand to the proxy.
    pub fn port(&self) -> (port: u16)
        ensures
            port == self@.destination.port,
    {
        self.request.port()
    }

    /// Completes the connect with the outcome of the handshake.
    ///
    /// A failed handshake gives `Ok(Err(..))` with the failure wrapped. A
    /// stream gives `Ok(Ok(..))`: the stream bound to the identity text of
    /// the destination that was asked for. Where that text is no URI, the
    /// stream is dropped and the refused text comes back as `Err(..)`.
    pub fn complete<S, E>(self, outcome: Result<S, E>) -> (r: Completed<S, E>)
        ensures
            observed(r) == resolution(self@.destination, outcome),
    {
        match outcome {
            Err(e) => Ok(Err(to_connect_error(e))),
            Ok(stream) => {
                let text = format_authority(self.request.host(), self.request.port());
                match Connection::from_parsed(stream, Identity::parse(text)) {
                    Ok(conn) => Ok(Ok(conn)),
                    Err(e) => Err(e),
                }
            },
        }
    }
}

} // verus!

//! The adapter between a unix socket listener and a routerify router: what
//! each accepted connection is served with, and what each of its requests is
//! given on the way to the router.
use crate::ext::{carried_meta, visible_addr, visible_cred};
use crate::outside::{
    extensions, extensions_mut, extensions_of, get_meta, insert_meta, inserted, peer_addr_of,
    peer_cred_of, with_extensions,
};
use crate::request_meta::{captured, RequestMeta};
use hyper::{Body, Request};
use routerify::RequestServiceBuilder;
use std::convert::Infallible;
use tokio::net::unix::{SocketAddr, UCred};
use tokio::net::UnixStream;
use vstd::prelude::*;

verus! {

/// An IPv4 socket address in plain numbers: the four octets and the port.
#[derive(Clone, Copy, Debug, PartialEq, Eq)]
pub struct RouterAddr {
    pub ip: [u8; 4],
    pub port: u16,
}

/// Whether `addr` is the address that stands in for the peer of every unix
/// socket connection: the loopback address `127.0.0.1` with port 0.
pub open spec fn is_placeholder(addr: RouterAddr) -> bool {
    addr.ip@ == seq![127u8, 0u8, 0u8, 1u8] && addr.port == 0
}

impl RouterAddr {
    /// The address handed to the router in place of a peer's IP address. It
    /// says nothing of the peer and is the same for every connection.
    pub fn placeholder() -> (addr: RouterAddr)
        ensures
            is_placeholder(addr),
    {
        RouterAddr { ip: [127, 0, 0, 1], port: 0 }
    }
}

/// The record in an extension bag after `meta` was offered to it: the record
/// it held already, or else `meta`.
pub open spec fn set_if_absent(
    carried: Option<RequestMeta>,
    meta: RequestMeta,
) -> Option<RequestMeta> {
    match carried {
        Some(present) => Some(present),
        None => Some(meta),
    }
}

/// The record that `req` carries once `meta` was injected into it.
pub open spec fn carried_after(req: Request<Body>, meta: RequestMeta) -> Option<RequestMeta> {
    set_if_absent(carried_meta(req), meta)
}

/// The request `req` with `meta` inserted into its extension bag.
pub open spec fn with_meta(req: Request<Body>, meta: RequestMeta) -> Request<Body> {
    with_extensions(req, inserted(extensions_of(req), meta))
}

/// The request that [`inject`] makes of `req`: `req` itself where it carries
/// a record, and `req` with `meta` in its extension bag where it carries none.
pub open spec fn injected(req: Request<Body>, meta: RequestMeta) -> Request<Body> {
    if carried_meta(req) is Some {
        req
    } else {
        with_meta(req, meta)
    }
}

/// Gives `req` the record of its connection, unless it carries a record
/// already: a request that passes twice keeps the record it got first.
pub fn inject(req: Request<Body>, meta: &RequestMeta) -> (out: Request<Body>)
    ensures
        out == injected(req, *meta),
        carried_meta(out) == carried_after(req, *meta),
{
    let mut req = req;
    if get_meta(extensions(&req)).is_none() {
        let ext = extensions_mut(&mut req);
        let _ = insert_meta(ext, meta.clone());
    }
    req
}

/// What the requests of one accepted connection are served with: the address
/// that the router is told, and the record that each request is given.
pub struct ConnectionContext {
    pub remote_addr: RouterAddr,
    pub meta: RequestMeta,
}

impl ConnectionContext {
    /// The context of a connection whose socket gave `addr` and `cred` when
    /// it was asked for its peer: the router is told the placeholder address,
    /// whatever the answers, and the record is what was captured of them.
    pub fn for_lookups(
        addr: Result<SocketAddr, std::io::Error>,
        cred: Result<UCred, std::io::Error>,
    ) -> (ctx: ConnectionContext)
        ensures
            is_placeholder(ctx.remote_addr),
            ctx.meta@ == captured(addr, cred),
    {
        ConnectionContext {
            remote_addr: RouterAddr::placeholder(),
            meta: RequestMeta::from_lookups(addr, cred),
        }
    }

    /// The transform that every request of the connection passes before it
    /// reaches the router.
    pub fn map_request(&self, req: Request<Body>) -> (out: Request<Body>)
        ensures
            out == injected(req, self.meta),
            carried_meta(out) == carried_after(req, self.meta),
    {
        inject(req, &self.meta)
    }
}

/// Serves a routerify router on unix socket connections.
///
/// It keeps the request service builder of an initialised router. `B` is the
/// body type of the router's responses, `E` the error type of its handlers.
#[derive(Debug)]
#[verifier::reject_recursive_types(B)]
#[verifier::reject_recursive_types(E)]
pub struct UnixRouterService<B, E> {
    builder: RequestServiceBuilder<B, E>,
}

impl<B, E> View for UnixRouterService<B, E> {
    type V = RequestServiceBuilder<B, E>;

    closed spec fn view(&self) -> RequestServiceBuilder<B, E> {
        self.builder
    }
}

impl<B, E> UnixRouterService<B, E> {
    /// Creates the service from what `RequestServiceBuilder::new` made of the
    /// router. Where the router could not be initialised, its error is handed
    /// on as it is.
    pub fn new<X>(built: Result<RequestServiceBuilder<B, E>, X>) -> (service: Result<Self, X>)
        ensures
            match built {
                Ok(builder) => service matches Ok(s) && s@ == builder,
                Err(error) => service matches Err(e) && e == error,
            },
    {
        match built {
            Ok(builder) => Ok(UnixRouterService { builder }),
            Err(error) => Err(error),
        }
    }

    /// The builder of the router's request services.
    pub fn builder(&self) -> (builder: &RequestServiceBuilder<B, E>)
        ensures
            *builder == self@,
    {
        &self.builder
    }

    /// The service waits for nothing: it is always ready.
    pub fn poll_ready(&mut self) -> (ready: Result<(), Infallible>)
        ensures
            ready is Ok,
            *final(self) == *old(self),
    {
        Ok(())
    }

    /// Decides what the requests of the accepted connection `conn` are served
    /// with. The peer is captured here, once: the socket is asked for the
    /// peer's address and credential, and the record is what was captured of
    /// its answers. The router is told the placeholder address, whoever the
    /// peer is. This never fails.
    pub fn call(&mut self, conn: &UnixStream) -> (context: Result<ConnectionContext, Infallible>)
        ensures
            context matches Ok(ctx) && is_placeholder(ctx.remote_addr),
            context matches Ok(ctx) && exists|
                addr: Result<SocketAddr, std::io::Error>,
                cred: Result<UCred, std::io::Error>,
            |
                ctx.meta@ == captured(addr, cred),
            *final(self) == *old(self),
    {
        let addr = peer_addr_of(conn);
        let cred = peer_cred_of(conn);
        Ok(ConnectionContext::for_lookups(addr, cred))
    }
}

/// A request that carries a record already comes out of the injection as it
/// went in: the record is neither replaced nor joined by a second one.
pub proof fn lemma_inject_keeps_present_record(req: Request<Body>, meta: RequestMeta)
    requires
        carried_meta(req) is Some,
    ensures
        injected(req, meta) == req,
        carried_after(req, meta) == carried_meta(req),
{
}

/// Offering a second record to an extension bag that was offered one changes
/// nothing, whatever the bag held at first.
pub proof fn lemma_set_if_absent_idempotent(
    carried: Option<RequestMeta>,
    first: RequestMeta,
    second: RequestMeta,
)
    ensures
        set_if_absent(set_if_absent(carried, first), second) == set_if_absent(carried, first),
{
}

/// Two requests of one connection that come in without a record both carry
/// the connection's record after the injection, and both show what was
/// captured when the connection was accepted.
pub proof fn lemma_requests_share_record(
    meta: RequestMeta,
    first: Request<Body>,
    second: Request<Body>,
)
    requires
        carried_meta(first) is None,
        carried_meta(second) is None,
    ensures
        carried_after(first, meta) == Some(meta),
        carried_after(second, meta) == carried_after(first, meta),
        visible_addr(carried_after(first, meta)) == meta@.addr,
        visible_addr(carried_after(second, meta)) == meta@.addr,
        visible_cred(carried_after(first, meta)) == meta@.cred,
        visible_cred(carried_after(second, meta)) == meta@.cred,
{
}

/// Where a lookup failed when the connection was accepted, every request of
/// the connection that comes in without a record shows that field as absent.
pub proof fn lemma_failed_lookup_shows_absent(
    addr: Result<SocketAddr, std::io::Error>,
    cred: Result<UCred, std::io::Error>,
    meta: RequestMeta,
    req: Request<Body>,
)
    requires
        meta@ == captured(addr, cred),
        carried_meta(req) is None,
    ensures
        addr is Err ==> visible_addr(carried_after(req, meta)) is None,
        cred is Err ==> visible_cred(carried_after(req, meta)) is None,
{
}

} // verus!

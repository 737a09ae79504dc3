//! Reading the connection's record back from a request.
use crate::outside::{extensions, extensions_of, get_meta, held_meta};
use crate::request_meta::{referent, RequestMeta};
use hyper::{Body, Request};
use tokio::net::unix::{SocketAddr, UCred};
use vstd::prelude::*;

verus! {

/// The record that `req` carries in its extension bag, if it carries one.
pub open spec fn carried_meta(req: Request<Body>) -> Option<RequestMeta> {
    held_meta(extensions_of(req))
}

/// The peer address that a request with the record `carried` shows.
pub open spec fn visible_addr(carried: Option<RequestMeta>) -> Option<SocketAddr> {
    match carried {
        Some(meta) => meta@.addr,
        None => None,
    }
}

/// The peer credential that a request with the record `carried` shows.
pub open spec fn visible_cred(carried: Option<RequestMeta>) -> Option<UCred> {
    match carried {
        Some(meta) => meta@.cred,
        None => None,
    }
}

/// Extends [`hyper::Request`] with what is known of the unix socket that the
/// request came in on.
///
/// Both methods answer `None` for a request that carries no record, as one
/// that did not come through a [`UnixRouterService`](crate::UnixRouterService)
/// does, and for a request whose connection could not tell.
pub trait UnixRequestExt {
    /// The record that the request carries, if it carries one.
    spec fn unix_meta(&self) -> Option<RequestMeta>;

    /// Returns the peer address of the incoming request's socket.
    fn unix_peer_addr(&self) -> (addr: Option<&SocketAddr>)
        ensures
            referent(addr) == visible_addr(self.unix_meta()),
    ;

    /// Returns the peer credential of the incoming request's socket.
    fn unix_peer_cred(&self) -> (cred: Option<&UCred>)
        ensures
            referent(cred) == visible_cred(self.unix_meta()),
    ;
}

impl UnixRequestExt for Request<Body> {
    open spec fn unix_meta(&self) -> Option<RequestMeta> {
        carried_meta(*self)
    }

    fn unix_peer_addr(&self) -> (addr: Option<&SocketAddr>) {
        match get_meta(extensions(self)) {
            Some(meta) => meta.peer_addr(),
            None => None,
        }
    }

    fn unix_peer_cred(&self) -> (cred: Option<&UCred>) {
        match get_meta(extensions(self)) {
            Some(meta) => meta.peer_cred(),
            None => None,
        }
    }
}

} // verus!

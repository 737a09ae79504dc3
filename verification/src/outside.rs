//! What this crate takes on trust from tokio, hyper, routerify and std.
//!
//! The types declared here are opaque to the verifier: a value of one of them
//! can be carried around and compared, nothing more. The spec functions
//! without a body name what a request and its extension bag hold. The
//! executable functions are thin wrappers, one for each outside function that
//! the crate calls; their contracts are believed, not proved.
use crate::request_meta::{referent, RequestMeta};
use hyper::http::Extensions;
use hyper::{Body, Request};
use routerify::RequestServiceBuilder;
use std::sync::Arc;
use tokio::net::unix::{SocketAddr, UCred};
use tokio::net::UnixStream;
use vstd::prelude::*;

verus! {

/// `tokio::net::unix::SocketAddr`, the address of one end of a unix socket.
#[verifier::external_type_specification]
#[verifier::external_body]
pub struct ExSocketAddr(SocketAddr);

/// `tokio::net::unix::UCred`, the user, group and process id of a peer.
#[verifier::external_type_specification]
#[verifier::external_body]
pub struct ExUCred(UCred);

/// `tokio::net::UnixStream`, an accepted unix socket connection.
#[verifier::external_type_specification]
#[verifier::external_body]
pub struct ExUnixStream(UnixStream);

/// `std::io::Error`, the error of a failed socket query.
#[verifier::external_type_specification]
#[verifier::external_body]
pub struct ExIoError(std::io::Error);

/// `hyper::Body`, the body of an incoming request.
#[verifier::external_type_specification]
#[verifier::external_body]
pub struct ExBody(Body);

/// `http::Extensions`, the extension bag of a request: a map from types to
/// one value of each.
#[verifier::external_type_specification]
#[verifier::external_body]
pub struct ExExtensions(Extensions);

/// `hyper::Request`, an HTTP request with its extension bag.
#[verifier::external_type_specification]
#[verifier::external_body]
#[verifier::reject_recursive_types(T)]
pub struct ExRequest<T>(Request<T>);

/// `routerify::RequestServiceBuilder`, which makes one request service per
/// connection from an initialised router.
#[verifier::external_type_specification]
#[verifier::external_body]
#[verifier::reject_recursive_types(B)]
#[verifier::reject_recursive_types(E)]
pub struct ExRequestServiceBuilder<B, E>(RequestServiceBuilder<B, E>);

/// The extension bag of `req`: what `Request::extensions` lends.
pub uninterp spec fn extensions_of(req: Request<Body>) -> Extensions;

/// The request that has `ext` for its extension bag and is `req` in
/// everything else: what `req` is once the bag lent by
/// `Request::extensions_mut` is given back as `ext`.
pub uninterp spec fn with_extensions(req: Request<Body>, ext: Extensions) -> Request<Body>;

/// The value that `ext` holds under the type [`RequestMeta`], if it holds
/// one: what `Extensions::get` finds there. A bag holds at most one value of
/// a type.
pub uninterp spec fn held_meta(ext: Extensions) -> Option<RequestMeta>;

/// The bag that `Extensions::insert` makes of `ext` when it is given `meta`.
pub uninterp spec fn inserted(ext: Extensions, meta: RequestMeta) -> Extensions;

/// Calls `UnixStream::peer_addr`. The answer comes from the operating system,
/// so nothing is claimed of it.
#[verifier::external_body]
pub(crate) fn peer_addr_of(conn: &UnixStream) -> Result<SocketAddr, std::io::Error> {
    conn.peer_addr()
}

/// Calls `UnixStream::peer_cred`. The answer comes from the operating system,
/// so nothing is claimed of it.
#[verifier::external_body]
pub(crate) fn peer_cred_of(conn: &UnixStream) -> Result<UCred, std::io::Error> {
    conn.peer_cred()
}

/// Calls `Arc::clone`, which hands out another pointer to the same allocation:
/// the new pointer refers to the value that `shared` refers to.
#[verifier::external_body]
pub(crate) fn share<T>(shared: &Arc<T>) -> (other: Arc<T>)
    ensures
        other == *shared,
{
    Arc::clone(shared)
}

/// Calls `Request::extensions`, which lends the request's extension bag.
#[verifier::external_body]
pub(crate) fn extensions(req: &Request<Body>) -> (ext: &Extensions)
    ensures
        *ext == extensions_of(*req),
{
    req.extensions()
}

/// Calls `Request::extensions_mut`, which lends the request's extension bag
/// for writing: the bag starts as it is in the request, and the request ends
/// with the bag as the borrower leaves it, nothing else of it changed.
#[verifier::external_body]
pub(crate) fn extensions_mut(req: &mut Request<Body>) -> (ext: &mut Extensions)
    ensures
        *ext == extensions_of(*old(req)),
        *final(req) == with_extensions(*old(req), *final(ext)),
        extensions_of(*final(req)) == *final(ext),
{
    req.extensions_mut()
}

/// Calls `Extensions::get` for the type `RequestMeta`, which looks up the
/// value that the bag holds under that type and changes nothing.
#[verifier::external_body]
pub(crate) fn get_meta(ext: &Extensions) -> (found: Option<&RequestMeta>)
    ensures
        referent(found) == held_meta(*ext),
{
    ext.get::<RequestMeta>()
}

/// Calls `Extensions::insert`, which stores `meta` under the type
/// `RequestMeta` and returns what the bag held under that type before:
/// afterwards the bag holds `meta` there.
#[verifier::external_body]
pub(crate) fn insert_meta(ext: &mut Extensions, meta: RequestMeta) -> (previous: Option<RequestMeta>)
    ensures
        *final(ext) == inserted(*old(ext), meta),
        held_meta(*final(ext)) == Some(meta),
        previous == held_meta(*old(ext)),
{
    ext.insert(meta)
}

} // verus!

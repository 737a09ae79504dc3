//! Serve a [routerify](https://docs.rs/routerify) router over unix-domain sockets.
//!
//! A router built by routerify expects every connection to come with an IP
//! socket address. A unix-domain socket has none, so the router is handed the
//! loopback address `127.0.0.1` with port 0 in its place. What a unix socket
//! does know of its peer, the peer's socket address and the credential of the
//! peer process, is captured once when the connection is accepted and made
//! available on every request of that connection through [`UnixRequestExt`].
//!
//! This crate holds the decisions of that adapter, each with a contract:
//!
//! * [`RequestMeta`] is the record captured for one connection;
//! * [`inject`] puts the record into a request that does not carry one yet;
//! * [`UnixRequestExt`] reads the record back from a request;
//! * [`UnixRouterService`] keeps the router's request service builder and
//!   decides, for each accepted connection, what its requests are served with.
use vstd::prelude::*;

pub mod ext;
pub mod outside;
pub mod request_meta;
pub mod router_service;

pub use ext::UnixRequestExt;
pub use request_meta::{PeerInfo, RequestMeta};
pub use router_service::{inject, ConnectionContext, RouterAddr, UnixRouterService};

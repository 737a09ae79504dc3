//! The record captured for one connection.
use crate::outside::{peer_addr_of, peer_cred_of, share};
use std::sync::Arc;
use tokio::net::unix::{SocketAddr, UCred};
use tokio::net::UnixStream;
use vstd::prelude::*;

verus! {

/// What is known of the peer of a connection: the mathematical value of a
/// [`RequestMeta`].
///
/// A field is `None` when the socket could not tell; there is no placeholder
/// value.
pub struct PeerInfo {
    pub addr: Option<SocketAddr>,
    pub cred: Option<UCred>,
}

/// What a lookup of the peer's address and one of the peer's credential
/// amount to: each answer is kept, each failure becomes an absent field.
pub open spec fn captured(
    addr: Result<SocketAddr, std::io::Error>,
    cred: Result<UCred, std::io::Error>,
) -> PeerInfo {
    PeerInfo {
        addr: match addr {
            Ok(a) => Some(a),
            Err(_) => None,
        },
        cred: match cred {
            Ok(c) => Some(c),
            Err(_) => None,
        },
    }
}

/// The value behind an optional reference.
pub open spec fn referent<T>(r: Option<&T>) -> Option<T> {
    match r {
        Some(v) => Some(*v),
        None => None,
    }
}

/// Holds what was captured of a connection's peer when the connection was
/// accepted. It is put into the extensions of every request of the
/// connection, and never changes after it was made.
///
/// The address is behind an `Arc`: a clone of the record shares it.
pub struct RequestMeta {
    peer_addr: Option<Arc<SocketAddr>>,
    cred: Option<UCred>,
}

impl View for RequestMeta {
    type V = PeerInfo;

    closed spec fn view(&self) -> PeerInfo {
        PeerInfo {
            addr: match self.peer_addr {
                Some(a) => Some(*a),
                None => None,
            },
            cred: self.cred,
        }
    }
}

impl Clone for RequestMeta {
    /// The clone is the same record; its address is shared, not copied.
    fn clone(&self) -> (other: Self)
        ensures
            other == *self,
    {
        RequestMeta {
            peer_addr: match &self.peer_addr {
                Some(a) => Some(share(a)),
                None => None,
            },
            cred: self.cred,
        }
    }
}

impl RequestMeta {
    /// Captures the peer of `conn` by asking the socket for the peer's address
    /// and for the peer's credential. Either query may fail; the record is
    /// made all the same, without that field.
    ///
    /// What the socket answers is the operating system's to say, so the
    /// contract names no answer: it says that the record is what
    /// [`from_lookups`](Self::from_lookups) makes of some pair of answers.
    pub fn new(conn: &UnixStream) -> (meta: Self)
        ensures
            exists|addr: Result<SocketAddr, std::io::Error>, cred: Result<UCred, std::io::Error>|
                meta@ == captured(addr, cred),
    {
        let addr = peer_addr_of(conn);
        let cred = peer_cred_of(conn);
        Self::from_lookups(addr, cred)
    }

    /// Makes the record from the outcome of the two queries.
    pub fn from_lookups(
        addr: Result<SocketAddr, std::io::Error>,
        cred: Result<UCred, std::io::Error>,
    ) -> (meta: Self)
        ensures
            meta@ == captured(addr, cred),
    {
        RequestMeta {
            peer_addr: match addr {
                Ok(a) => Some(Arc::new(a)),
                Err(_) => None,
            },
            cred: match cred {
                Ok(c) => Some(c),
                Err(_) => None,
            },
        }
    }

    /// The peer's address, if the socket told it.
    pub fn peer_addr(&self) -> (addr: Option<&SocketAddr>)
        ensures
            referent(addr) == self@.addr,
    {
        match &self.peer_addr {
            Some(a) => Some(&**a),
            None => None,
        }
    }

    /// The peer's credential, if the socket told it.
    pub fn peer_cred(&self) -> (cred: Option<&UCred>)
        ensures
            referent(cred) == self@.cred,
    {
        self.cred.as_ref()
    }
}

} // verus!

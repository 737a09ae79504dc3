use hyper::{Body, Request};
use routerify_unixsocket::{inject, ConnectionContext, RequestMeta, RouterAddr, UnixRequestExt};
use std::io::{Error, ErrorKind};
use tokio::net::unix::{SocketAddr, UCred};
use tokio::net::UnixStream;

fn peer_of_a_pair() -> (SocketAddr, UCred) {
    tokio::runtime::Builder::new_current_thread()
        .enable_all()
        .build()
        .unwrap()
        .block_on(async {
            let (a, _b) = UnixStream::pair().unwrap();
            (a.peer_addr().unwrap(), a.peer_cred().unwrap())
        })
}

fn failed() -> Error {
    Error::from(ErrorKind::NotConnected)
}

fn empty_request() -> Request<Body> {
    Request::new(Body::empty())
}

#[test]
fn capture_keeps_both_answers() {
    let (addr, cred) = peer_of_a_pair();
    let shown = format!("{:?}", addr);
    let meta = RequestMeta::from_lookups(Ok(addr), Ok(cred));
    assert_eq!(Some(shown), meta.peer_addr().map(|a| format!("{:?}", a)));
    assert_eq!(Some(&cred), meta.peer_cred());
}

#[test]
fn capture_without_address() {
    let (_addr, cred) = peer_of_a_pair();
    let meta = RequestMeta::from_lookups(Err(failed()), Ok(cred));
    assert!(meta.peer_addr().is_none());
    assert_eq!(Some(&cred), meta.peer_cred());
}

#[test]
fn capture_without_credential() {
    let (addr, _cred) = peer_of_a_pair();
    let meta = RequestMeta::from_lookups(Ok(addr), Err(failed()));
    assert!(meta.peer_addr().is_some());
    assert!(meta.peer_addr().unwrap().is_unnamed());
    assert_eq!(None, meta.peer_cred());
}

#[test]
fn capture_with_nothing_known() {
    let meta = RequestMeta::from_lookups(Err(failed()), Err(failed()));
    assert!(meta.peer_addr().is_none());
    assert!(meta.peer_cred().is_none());
}

#[test]
fn capture_of_a_live_connection() {
    tokio::runtime::Builder::new_current_thread()
        .enable_all()
        .build()
        .unwrap()
        .block_on(async {
            let (client, server) = UnixStream::pair().unwrap();
            let meta = RequestMeta::new(&server);
            assert_eq!(Some(&client.peer_cred().unwrap()), meta.peer_cred());
            assert_eq!(
                Some(format!("{:?}", server.peer_addr().unwrap())),
                meta.peer_addr().map(|a| format!("{:?}", a))
            );
        });
}

#[test]
fn clone_shares_the_address() {
    let (addr, cred) = peer_of_a_pair();
    let meta = RequestMeta::from_lookups(Ok(addr), Ok(cred));
    let other = meta.clone();
    assert!(std::ptr::eq(
        meta.peer_addr().unwrap(),
        other.peer_addr().unwrap()
    ));
    assert_eq!(meta.peer_cred(), other.peer_cred());
}

#[test]
fn request_without_record_shows_nothing() {
    let req = empty_request();
    assert!(req.unix_peer_addr().is_none());
    assert!(req.unix_peer_cred().is_none());
}

#[test]
fn inject_gives_the_record() {
    let (addr, cred) = peer_of_a_pair();
    let meta = RequestMeta::from_lookups(Ok(addr), Ok(cred));
    let out = inject(empty_request(), &meta);
    assert_eq!(Some(&cred), out.unix_peer_cred());
    assert!(std::ptr::eq(
        meta.peer_addr().unwrap(),
        out.unix_peer_addr().unwrap()
    ));
    assert!(out.extensions().get::<RequestMeta>().is_some());
}

#[test]
fn inject_keeps_a_record_that_is_there() {
    let (_addr, cred) = peer_of_a_pair();
    let first = RequestMeta::from_lookups(Err(failed()), Ok(cred));
    let second = RequestMeta::from_lookups(Err(failed()), Err(failed()));

    let once = inject(empty_request(), &first);
    let seen = once.unix_peer_cred().copied();
    let twice = inject(once, &second);
    assert_eq!(Some(cred), seen);
    assert_eq!(Some(&cred), twice.unix_peer_cred());
}

#[test]
fn inject_twice_is_inject_once() {
    let (addr, cred) = peer_of_a_pair();
    let meta = RequestMeta::from_lookups(Ok(addr), Ok(cred));
    let once = inject(empty_request(), &meta);
    let place = format!("{:p}", once.unix_peer_addr().unwrap());
    let twice = inject(once, &meta);
    assert_eq!(place, format!("{:p}", twice.unix_peer_addr().unwrap()));
    assert_eq!(Some(&cred), twice.unix_peer_cred());
}

#[test]
fn failed_lookup_shows_absent_on_every_request() {
    let (addr, _cred) = peer_of_a_pair();
    let meta = RequestMeta::from_lookups(Ok(addr), Err(failed()));
    let first = inject(empty_request(), &meta);
    let second = inject(empty_request(), &meta);
    assert!(first.unix_peer_cred().is_none());
    assert!(second.unix_peer_cred().is_none());
    assert!(first.unix_peer_addr().is_some());

    let meta = RequestMeta::from_lookups(Err(failed()), Err(failed()));
    let third = inject(empty_request(), &meta);
    assert!(third.unix_peer_addr().is_none());
    assert!(third.unix_peer_cred().is_none());
}

#[test]
fn placeholder_is_loopback_port_zero() {
    let addr = RouterAddr::placeholder();
    assert_eq!([127, 0, 0, 1], addr.ip);
    assert_eq!(0, addr.port);
    assert_eq!(RouterAddr { ip: [127, 0, 0, 1], port: 0 }, addr);
}

#[test]
fn context_for_answers_keeps_them() {
    let (addr, cred) = peer_of_a_pair();
    let shown = format!("{:?}", addr);
    let ctx = ConnectionContext::for_lookups(Ok(addr), Ok(cred));
    assert_eq!(RouterAddr { ip: [127, 0, 0, 1], port: 0 }, ctx.remote_addr);
    assert_eq!(Some(shown), ctx.meta.peer_addr().map(|a| format!("{:?}", a)));
    assert_eq!(Some(&cred), ctx.meta.peer_cred());
}

#[test]
fn context_for_failed_lookups_has_the_placeholder_and_no_peer() {
    let ctx = ConnectionContext::for_lookups(Err(failed()), Err(failed()));
    assert_eq!([127, 0, 0, 1], ctx.remote_addr.ip);
    assert_eq!(0, ctx.remote_addr.port);
    assert!(ctx.meta.peer_addr().is_none());
    assert!(ctx.meta.peer_cred().is_none());

    let out = ctx.map_request(empty_request());
    assert!(out.unix_peer_addr().is_none());
    assert!(out.unix_peer_cred().is_none());
}

#[test]
fn context_for_one_failed_lookup_keeps_the_other() {
    let (_addr, cred) = peer_of_a_pair();
    let ctx = ConnectionContext::for_lookups(Err(failed()), Ok(cred));
    assert!(ctx.meta.peer_addr().is_none());
    assert_eq!(Some(&cred), ctx.meta.peer_cred());
}

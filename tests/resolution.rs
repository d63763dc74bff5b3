use destination::addr::{DnsNameAndPort, IpAddr, SocketAddr};
use destination::endpoint::Endpoint;
use destination::labels::DstLabels;
use destination::metadata::Metadata;
use destination::resolver::{active_for_count, new, Bind, Requests, ResolveError, Resolution};
use destination::update::{bound_change, Async, Change, DiscoverError, OutsideTask, Received, Update};
use futures::Future;

struct IdentityBind;

impl Bind for IdentityBind {
    type Request = ();
    type Response = ();
    type Error = ();
    type BindError = ();
    type Service = SocketAddr;

    fn bind(&self, endpoint: &Endpoint) -> Result<SocketAddr, ()> {
        Ok(endpoint.address())
    }
}

struct FailingBind;

impl Bind for FailingBind {
    type Request = ();
    type Response = ();
    type Error = ();
    type BindError = String;
    type Service = SocketAddr;

    fn bind(&self, _endpoint: &Endpoint) -> Result<SocketAddr, String> {
        Err("refused".to_string())
    }
}

/// Binds an endpoint to the value of its `app` label.
struct LabelBind;

impl Bind for LabelBind {
    type Request = ();
    type Response = ();
    type Error = ();
    type BindError = ();
    type Service = Option<String>;

    fn bind(&self, endpoint: &Endpoint) -> Result<Option<String>, ()> {
        Ok(endpoint.dst_labels().and_then(|l| l.get(&"app".to_string()).cloned()))
    }
}

fn labels(pairs: &[(&str, &str)]) -> DstLabels {
    DstLabels::new(pairs.iter().map(|(k, v)| (k.to_string(), v.to_string())).collect())
}

fn addr(a: u8, b: u8, c: u8, d: u8, port: u16) -> SocketAddr {
    SocketAddr::new(IpAddr::V4(u32::from_be_bytes([a, b, c, d])), port)
}

fn authority(host: &str, port: u16) -> DnsNameAndPort {
    DnsNameAndPort { host: host.to_string(), port }
}

/// Runs `f` inside a futures task, as the polling functions require.
fn in_task<F: FnOnce()>(f: F) {
    futures::future::lazy(|| {
        f();
        Ok::<(), ()>(())
    })
    .wait()
    .unwrap();
}

fn poll_change<B: Bind>(res: &mut Resolution<B>) -> Result<Async<Change<B::Service>>, DiscoverError> {
    res.poll()
}

#[test]
fn meshed_true_supports_tls() {
    let m = Metadata::from_labels(Some(labels(&[("app", "web"), ("meshed", "true")])));
    assert!(m.supports_tls());
    assert_eq!(m.dst_labels().unwrap().get(&"app".to_string()), Some(&"web".to_string()));
}

#[test]
fn meshed_other_value_does_not_support_tls() {
    for value in ["True", "false", "", "true "] {
        let m = Metadata::from_labels(Some(labels(&[("meshed", value)])));
        assert!(!m.supports_tls(), "value {:?}", value);
    }
}

#[test]
fn missing_meshed_label_does_not_support_tls() {
    let m = Metadata::from_labels(Some(labels(&[("app", "web")])));
    assert!(!m.supports_tls());
    let empty = Metadata::from_labels(Some(labels(&[])));
    assert!(!empty.supports_tls());
}

#[test]
fn absent_labels_do_not_support_tls() {
    let m = Metadata::from_labels(None);
    assert!(!m.supports_tls());
    assert!(m.dst_labels().is_none());
}

#[test]
fn later_label_wins() {
    let m = Metadata::from_labels(Some(labels(&[("meshed", "false"), ("meshed", "true")])));
    assert!(m.supports_tls());
    let m = Metadata::from_labels(Some(labels(&[("meshed", "true"), ("meshed", "no")])));
    assert!(!m.supports_tls());
}

#[test]
fn no_metadata_is_default() {
    let m = Metadata::no_metadata();
    assert!(m.dst_labels().is_none());
    assert!(!m.supports_tls());
    assert_eq!(m, Metadata::default());
    assert_eq!(m, Metadata::from_labels(None));
}

#[test]
fn bound_change_inserts_or_fails() {
    let a = addr(10, 0, 0, 1, 80);
    match bound_change::<u32, ()>(a, Ok(7)) {
        Ok(Change::Insert(k, s)) => {
            assert_eq!(k, a);
            assert_eq!(s, 7);
        }
        _ => panic!("expected an insert"),
    }
    assert!(matches!(bound_change::<u32, ()>(a, Err(())), Err(DiscoverError::BindFailed)));
}

#[test]
fn update_addr_is_its_address() {
    let a = addr(10, 0, 0, 2, 8080);
    assert_eq!(Update::Insert(a, Metadata::no_metadata()).addr(), a);
    assert_eq!(Update::Remove(a).addr(), a);
    assert_eq!(Update::ChangeMetadata(a, Metadata::no_metadata()).addr(), a);
}

#[test]
fn resolve_enqueues_one_request() {
    in_task(|| {
        let (resolver, mut requests) = new();
        let res = resolver.resolve(&authority("svc.ns", 80), IdentityBind).unwrap();
        let req = match requests.poll_request().unwrap() {
            Async::Ready(Some(req)) => req,
            _ => panic!("expected a request"),
        };
        assert_eq!(req.authority(), &authority("svc.ns", 80));
        assert!(req.responder().is_active());
        assert!(matches!(requests.poll_request().unwrap(), Async::NotReady));
        drop(res);
    });
}

#[test]
fn responder_is_active_until_resolution_dropped() {
    in_task(|| {
        let (resolver, mut requests) = new();
        let res = resolver.resolve(&authority("svc.ns", 80), IdentityBind).unwrap();
        let req = match requests.poll_request().unwrap() {
            Async::Ready(Some(req)) => req,
            _ => panic!("expected a request"),
        };
        let (_, responder) = req.into_parts();
        assert!(responder.is_active());
        assert!(responder.is_active());
        drop(res);
        assert!(!responder.is_active());
        assert!(!responder.send(Update::Remove(addr(10, 0, 0, 1, 80))));
    });
}

#[test]
fn insert_change_remove_in_order() {
    in_task(|| {
        let (resolver, mut requests) = new();
        let mut res = resolver.resolve(&authority("svc.ns", 80), IdentityBind).unwrap();
        let responder = match requests.poll_request().unwrap() {
            Async::Ready(Some(req)) => req.into_parts().1,
            _ => panic!("expected a request"),
        };
        let a = addr(10, 0, 0, 1, 80);
        let meshed = Metadata::from_labels(Some(labels(&[("meshed", "true")])));
        assert!(matches!(poll_change(&mut res), Ok(Async::NotReady)));
        assert!(responder.send(Update::Insert(a, Metadata::no_metadata())));
        assert!(responder.send(Update::ChangeMetadata(a, meshed)));
        assert!(responder.send(Update::Remove(a)));
        match poll_change(&mut res) {
            Ok(Async::Ready(Change::Insert(k, s))) => {
                assert_eq!(k, a);
                assert_eq!(s, a);
            }
            _ => panic!("expected an insert"),
        }
        match poll_change(&mut res) {
            Ok(Async::Ready(Change::Insert(k, s))) => {
                assert_eq!(k, a);
                assert_eq!(s, a);
            }
            _ => panic!("expected a second insert"),
        }
        match poll_change(&mut res) {
            Ok(Async::Ready(Change::Remove(k))) => assert_eq!(k, a),
            _ => panic!("expected a removal"),
        }
        assert!(matches!(poll_change(&mut res), Ok(Async::NotReady)));
    });
}

#[test]
fn bind_failure_is_a_discovery_error() {
    in_task(|| {
        let (resolver, mut requests) = new();
        let mut res = resolver.resolve(&authority("svc.ns", 80), FailingBind).unwrap();
        let responder = match requests.poll_request().unwrap() {
            Async::Ready(Some(req)) => req.into_parts().1,
            _ => panic!("expected a request"),
        };
        let a = addr(10, 0, 0, 1, 80);
        assert!(responder.send(Update::Insert(a, Metadata::no_metadata())));
        assert!(responder.send(Update::Remove(a)));
        assert!(matches!(poll_change(&mut res), Err(DiscoverError::BindFailed)));
        match poll_change(&mut res) {
            Ok(Async::Ready(Change::Remove(k))) => assert_eq!(k, a),
            _ => panic!("expected the removal that follows"),
        }
    });
}

#[test]
fn handle_binds_with_update_labels() {
    in_task(|| {
        let (resolver, _requests) = new();
        let res = resolver.resolve(&authority("svc.ns", 80), LabelBind).unwrap();
        let a = addr(10, 0, 0, 3, 443);
        let meta = Metadata::from_labels(Some(labels(&[("app", "api")])));
        match res.handle(Update::ChangeMetadata(a, meta)) {
            Ok(Change::Insert(k, s)) => {
                assert_eq!(k, a);
                assert_eq!(s, Some("api".to_string()));
            }
            _ => panic!("expected an insert"),
        }
        assert!(matches!(res.handle(Update::Remove(a)), Ok(Change::Remove(k)) if k == a));
    });
}

#[test]
fn closed_update_stream_is_reported() {
    in_task(|| {
        let (resolver, mut requests) = new();
        let mut res = resolver.resolve(&authority("svc.ns", 80), IdentityBind).unwrap();
        match requests.poll_request().unwrap() {
            Async::Ready(Some(req)) => drop(req),
            _ => panic!("expected a request"),
        }
        assert!(matches!(poll_change(&mut res), Err(DiscoverError::UpdatesClosed)));
    });
}

#[test]
fn resolve_fails_without_background() {
    let (resolver, requests) = new();
    drop(requests);
    assert!(matches!(
        resolver.resolve(&authority("svc.ns", 80), IdentityBind),
        Err(ResolveError::RequestQueueClosed)
    ));
}

#[test]
fn requests_end_when_resolvers_are_gone() {
    in_task(|| {
        let (resolver, mut requests) = new();
        let other = resolver.clone();
        drop(resolver);
        assert!(matches!(requests.poll_request().unwrap(), Async::NotReady));
        drop(other);
        assert!(matches!(requests.poll_request().unwrap(), Async::Ready(None)));
    });
}

#[test]
fn stub_background_end_to_end() {
    in_task(|| {
        let (resolver, mut requests) = new();
        let mut res = resolver.resolve(&authority("svc.ns", 80), IdentityBind).unwrap();
        let target = addr(10, 0, 0, 1, 80);
        // The stub background process: one insert for any authority.
        let responder = match requests.poll_request().unwrap() {
            Async::Ready(Some(req)) => {
                let (_, responder) = req.into_parts();
                assert!(responder.send(Update::Insert(target, Metadata::no_metadata())));
                responder
            }
            _ => panic!("expected a request"),
        };
        match poll_change(&mut res) {
            Ok(Async::Ready(Change::Insert(k, s))) => {
                assert_eq!(k, target);
                assert_eq!(s, target);
            }
            _ => panic!("expected an insert"),
        }
        drop(res);
        assert!(!responder.is_active());
    });
}

#[test]
fn polling_outside_a_task_fails() {
    let (resolver, mut requests) = new();
    let mut res = resolver.resolve(&authority("svc.ns", 80), IdentityBind).unwrap();
    assert!(matches!(requests.poll_request(), Err(OutsideTask)));
    assert!(matches!(res.poll(), Err(DiscoverError::OutsideTask)));
}

#[test]
fn activity_follows_token_count() {
    assert!(!active_for_count(1));
    assert!(active_for_count(2));
    assert!(active_for_count(3));
}

#[test]
fn request_outcome_maps_received() {
    assert!(matches!(Requests::outcome(Received::Pending), Async::NotReady));
    assert!(matches!(Requests::outcome(Received::Closed), Async::Ready(None)));
}

#[test]
fn update_outcome_maps_received() {
    let (resolver, _requests) = new();
    let res = resolver.resolve(&authority("svc.ns", 80), IdentityBind).unwrap();
    let a = addr(10, 0, 0, 4, 80);
    assert!(matches!(res.outcome(Received::Pending), Ok(Async::NotReady)));
    assert!(matches!(res.outcome(Received::Closed), Err(DiscoverError::UpdatesClosed)));
    match res.outcome(Received::Item(Update::Insert(a, Metadata::no_metadata()))) {
        Ok(Async::Ready(Change::Insert(k, s))) => {
            assert_eq!(k, a);
            assert_eq!(s, a);
        }
        _ => panic!("expected an insert"),
    }
    assert!(matches!(
        res.outcome(Received::Item(Update::Remove(a))),
        Ok(Async::Ready(Change::Remove(k))) if k == a
    ));
}

#[test]
fn two_resolutions_have_separate_tokens() {
    in_task(|| {
        let (resolver, mut requests) = new();
        let res1 = resolver.resolve(&authority("svc.ns", 80), IdentityBind).unwrap();
        let res2 = resolver.clone().resolve(&authority("svc.ns", 80), IdentityBind).unwrap();
        let take = |requests: &mut Requests| match requests.poll_request().unwrap() {
            Async::Ready(Some(req)) => req.into_parts().1,
            _ => panic!("expected a request"),
        };
        let rsp1 = take(&mut requests);
        let rsp2 = take(&mut requests);
        drop(res2);
        assert!(rsp1.is_active());
        assert!(!rsp2.is_active());
        drop(res1);
        assert!(!rsp1.is_active());
    });
}

#[test]
fn repeated_label_keeps_place_and_takes_later_value() {
    let l = labels(&[("a", "1"), ("b", "2"), ("a", "3")]);
    let expected = vec![("a".to_string(), "3".to_string()), ("b".to_string(), "2".to_string())];
    assert_eq!(l.pairs(), &expected);
    assert_eq!(l.get(&"a".to_string()), Some(&"3".to_string()));
    assert_eq!(l.get(&"c".to_string()), None);
}

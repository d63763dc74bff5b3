//! Resolution requests and the handles on both sides of a resolution.
//!
//! A `Resolver` queues one `ResolveRequest` per call of `resolve` for the
//! background process. The request carries a `Responder`, through which the
//! process sends `Update`s; the caller keeps the matching `Resolution`, which
//! turns those updates into changes to a set of bound services. Dropping the
//! `Resolution` is the only way to end a resolution: the `Responder` sees it
//! through a shared liveness token.
use vstd::prelude::*;

use futures::sync::mpsc::{UnboundedReceiver, UnboundedSender};
use std::sync::Arc;

use crate::addr::{DnsNameAndPort, SocketAddr};
use crate::channel::{in_task, poll_receiver, send, share, strong_count, unbounded};
use crate::endpoint::{Endpoint, EndpointView};
use crate::metadata::Metadata;
use crate::update::{
    bind_outcome, bound_change, change_for, ready, request_outcome, Async, Change, DiscoverError,
    OutsideTask, Received, Update,
};

verus! {

/// Binds an endpoint to a service that speaks some protocol.
pub trait Bind {
    /// Requests handled by the bound services.
    type Request;
    /// Responses given by the bound services.
    type Response;
    /// Errors produced by the bound services.
    type Error;
    /// Why an endpoint could not be bound.
    type BindError;
    /// The bound service.
    type Service;

    /// What binding may give for an endpoint: an implementation verified
    /// against this trait says which results `bind` returns for which
    /// endpoints; one that says nothing admits any result.
    open spec fn binds(&self, endpoint: EndpointView, r: Result<Self::Service, Self::BindError>) -> bool {
        true
    }

    /// Binds a service to `endpoint`.
    fn bind(&self, endpoint: &Endpoint) -> (r: Result<Self::Service, Self::BindError>)
        ensures
            self.binds(endpoint@, r);
}

/// A handle through which routing logic asks for resolutions.
#[derive(Clone)]
pub struct Resolver {
    request_tx: UnboundedSender<ResolveRequest>,
    /// Names the request queue that `request_tx` feeds.
    queue: Ghost<int>,
}

/// The receiving end of the request queue, for the background process.
pub struct Requests {
    request_rx: UnboundedReceiver<ResolveRequest>,
    /// Names the request queue that `request_rx` drains.
    queue: Ghost<int>,
}

/// A request that updates for `authority` be sent through `responder`.
#[derive(Debug)]
pub struct ResolveRequest {
    authority: DnsNameAndPort,
    responder: Responder,
}

/// The sending side of one resolution.
#[derive(Debug)]
pub struct Responder {
    /// Sends updates to the `Resolution`.
    update_tx: UnboundedSender<Update>,
    /// A second handle on the liveness token that the `Resolution` holds.
    active: Arc<()>,
}

/// The receiving side of one resolution: a source of changes to the set of
/// services bound to a destination's endpoints.
#[derive(Debug)]
pub struct Resolution<B> {
    /// Receives updates from the background process.
    update_rx: UnboundedReceiver<Update>,
    /// The liveness token; the `Responder` sees when this handle is dropped.
    active: Arc<()>,
    /// Binds endpoints to services.
    bind: B,
}

/// Why a resolution could not be started.
#[derive(Clone, Copy, Debug, PartialEq, Eq, Hash, Structural)]
pub enum ResolveError {
    /// The background process has dropped the request queue: a fault of the
    /// process as a whole, not of this request.
    RequestQueueClosed,
}

/// Returns a `Resolver` and the queue of the requests it makes, which the
/// background process drains.
pub fn new() -> (r: (Resolver, Requests))
    ensures
        r.0.queue_id() == r.1.queue_id(),
{
    let (request_tx, request_rx) = unbounded();
    let ghost queue: int = arbitrary();
    (Resolver { request_tx, queue: Ghost(queue) }, Requests { request_rx, queue: Ghost(queue) })
}

/// Whether a liveness token with `strong` handles is still held by a
/// `Resolution`: the `Responder` holds one handle, the `Resolution` the other.
pub fn active_for_count(strong: usize) -> (r: bool)
    ensures
        r == (strong > 1),
{
    strong > 1
}

impl Resolver {
    /// The request queue this resolver feeds.
    pub closed spec fn queue_id(&self) -> int {
        self.queue@
    }

    /// Starts watching for changes to the endpoints of `authority`: queues a
    /// request for it and returns the resolution that receives the updates,
    /// with `bind` as its binder.
    pub fn resolve<B>(&self, authority: &DnsNameAndPort, bind: B) -> (r: Result<Resolution<B>, ResolveError>)
        ensures
            r matches Ok(res) ==> res.binder() == bind,
            r matches Err(e) ==> e == ResolveError::RequestQueueClosed,
    {
        let (update_tx, update_rx) = unbounded();
        let active = Arc::new(());
        let responder = Responder { update_tx, active: share(&active) };
        let req = ResolveRequest::new(authority, responder);
        if send(&self.request_tx, req) {
            Ok(Resolution { update_rx, active, bind })
        } else {
            Err(ResolveError::RequestQueueClosed)
        }
    }
}

impl Requests {
    /// Polls for the next request: `NotReady` while none is queued, and
    /// `Ready(None)` once every `Resolver` is gone. Fails with `OutsideTask`
    /// when no futures task is running to be woken later.
    pub fn poll_request(&mut self) -> (r: Result<Async<Option<ResolveRequest>>, OutsideTask>)
        ensures
            final(self).queue_id() == old(self).queue_id(),
    {
        match in_task() {
            Some(task) => Ok(Requests::outcome(poll_receiver(&mut self.request_rx, &task))),
            None => Err(OutsideTask),
        }
    }

    /// The request queue this end drains.
    pub closed spec fn queue_id(&self) -> int {
        self.queue@
    }

    /// Turns what the request queue gave into what polling reports.
    pub fn outcome(received: Received<ResolveRequest>) -> (r: Async<Option<ResolveRequest>>)
        ensures
            r == request_outcome(received),
    {
        match received {
            Received::Item(req) => Async::Ready(Some(req)),
            Received::Pending => Async::NotReady,
            Received::Closed => Async::Ready(None),
        }
    }
}

impl ResolveRequest {
    /// The model of the request: the authority it asks about.
    pub closed spec fn authority_spec(&self) -> DnsNameAndPort {
        self.authority
    }

    fn new(authority: &DnsNameAndPort, responder: Responder) -> (r: ResolveRequest)
        ensures
            r.authority_spec() == *authority,
    {
        let authority = DnsNameAndPort { host: authority.host.clone(), port: authority.port };
        ResolveRequest { authority, responder }
    }

    /// Returns the authority whose updates are asked for.
    pub fn authority(&self) -> (r: &DnsNameAndPort)
        ensures
            *r == self.authority_spec(),
    {
        &self.authority
    }

    /// Returns the responder through which updates are sent.
    pub fn responder(&self) -> &Responder {
        &self.responder
    }

    /// Splits the request into its authority and its responder.
    pub fn into_parts(self) -> (r: (DnsNameAndPort, Responder))
        ensures
            r.0 == self.authority_spec(),
    {
        (self.authority, self.responder)
    }
}

impl Responder {
    /// Whether the paired `Resolution` is still alive: it is while the
    /// token has another handle than this one.
    pub fn is_active(&self) -> bool {
        active_for_count(strong_count(&self.active))
    }

    /// Sends an update to the paired `Resolution`. Returns `false` when it
    /// is gone; nothing then receives the update.
    pub fn send(&self, update: Update) -> bool {
        send(&self.update_tx, update)
    }
}

impl<B> Resolution<B> {
    /// The binder that the resolution was made with.
    pub closed spec fn binder(&self) -> B {
        self.bind
    }

    /// Returns the binder.
    pub fn bind(&self) -> (r: &B)
        ensures
            *r == self.binder(),
    {
        &self.bind
    }
}

/// The endpoint that an update asks to bind: its address, with the labels
/// of its metadata.
pub open spec fn endpoint_of(u: Update) -> EndpointView {
    match u {
        Update::Insert(a, m) => EndpointView { address: a, dst_labels: m@.dst_labels },
        Update::ChangeMetadata(a, m) => EndpointView { address: a, dst_labels: m@.dst_labels },
        Update::Remove(a) => EndpointView { address: a, dst_labels: None },
    }
}

/// `r` is what handling `u` reports with the binder `b`: a removal is
/// reported as such, and an insert or a metadata change reports what binding
/// the update's endpoint gave.
pub open spec fn handled<B: Bind>(b: B, u: Update, r: Result<Change<B::Service>, DiscoverError>) -> bool {
    exists|bound: Result<B::Service, B::BindError>|
        r == change_for(u, bound) && (u is Remove || b.binds(endpoint_of(u), bound))
}

impl<B: Bind> Resolution<B> {
    /// Turns one update into the change to report. An insert or a metadata
    /// change binds the endpoint at the update's address, with the update's
    /// labels, and reports the bound service or the failure to bind; a
    /// removal binds nothing.
    pub fn handle(&self, update: Update) -> (r: Result<Change<B::Service>, DiscoverError>)
        ensures
            handled(self.binder(), update, r),
    {
        let ghost u = update;
        match update {
            Update::Insert(addr, meta) | Update::ChangeMetadata(addr, meta) => {
                let endpoint = Endpoint::new(addr, meta.into_dst_labels());
                assert(endpoint@ == endpoint_of(u));
                let bound = self.bind.bind(&endpoint);
                proof {
                    assert(change_for(u, bound) == bind_outcome(addr, bound));
                }
                let r = bound_change(addr, bound);
                assert(r == change_for(u, bound) && self.binder().binds(endpoint_of(u), bound));
                r
            },
            Update::Remove(addr) => {
                let r = Ok(Change::Remove(addr));
                proof {
                    let w: Result<B::Service, B::BindError> = arbitrary();
                    assert(r == change_for(u, w));
                }
                r
            },
        }
    }

    /// Polls for the next change: `NotReady` until an update has arrived,
    /// then the change that `handle` makes of it. An update stream that
    /// ends is reported as `UpdatesClosed`. Fails with `OutsideTask` when no
    /// futures task is running to be woken later.
    pub fn poll(&mut self) -> (r: Result<Async<Change<B::Service>>, DiscoverError>)
        ensures
            final(self).binder() == old(self).binder(),
            r matches Ok(Async::Ready(c)) ==> exists|u: Update|
                handled(old(self).binder(), u, Ok::<Change<B::Service>, DiscoverError>(c)),
            r == Err::<Async<Change<B::Service>>, DiscoverError>(DiscoverError::BindFailed) ==> exists|u: Update|
                handled(old(self).binder(), u, Err::<Change<B::Service>, DiscoverError>(DiscoverError::BindFailed)),
    {
        match in_task() {
            Some(task) => {
                let received = poll_receiver(&mut self.update_rx, &task);
                self.outcome(received)
            },
            None => Err(DiscoverError::OutsideTask),
        }
    }

    /// Turns what the update channel gave into what polling reports: nothing
    /// yet is `NotReady`, an ended stream is `UpdatesClosed`, and an update
    /// is the change that `handle` makes of it.
    pub fn outcome(&self, received: Received<Update>) -> (r: Result<Async<Change<B::Service>>, DiscoverError>)
        ensures
            match received {
                Received::Item(u) => exists|c: Result<Change<B::Service>, DiscoverError>|
                    handled(self.binder(), u, c) && r == ready(c),
                Received::Pending => r == Ok::<Async<Change<B::Service>>, DiscoverError>(Async::NotReady),
                Received::Closed => r == Err::<Async<Change<B::Service>>, DiscoverError>(DiscoverError::UpdatesClosed),
            },
    {
        match received {
            Received::Item(update) => {
                let ghost u = update;
                let h = self.handle(update);
                let r = match h {
                    Ok(c) => Ok(Async::Ready(c)),
                    Err(e) => Err(e),
                };
                assert(handled(self.binder(), u, h) && r == ready(h));
                r
            },
            Received::Pending => Ok(Async::NotReady),
            Received::Closed => Err(DiscoverError::UpdatesClosed),
        }
    }
}

/// With a binder that never fails, inserting an endpoint, changing its
/// metadata and removing it report, in order, an insert of the service
/// bound for its address, a second insert (the endpoint is bound again, with
/// the same address and the new labels), and a removal.
pub proof fn lemma_metadata_change_rebinds<B: Bind>(
    b: B,
    a: SocketAddr,
    m1: Metadata,
    m2: Metadata,
    r1: Result<Change<B::Service>, DiscoverError>,
    r2: Result<Change<B::Service>, DiscoverError>,
    r3: Result<Change<B::Service>, DiscoverError>,
)
    requires
        forall|ep: EndpointView, x: Result<B::Service, B::BindError>| b.binds(ep, x) ==> x is Ok,
        handled(b, Update::Insert(a, m1), r1),
        handled(b, Update::ChangeMetadata(a, m2), r2),
        handled(b, Update::Remove(a), r3),
    ensures
        r1 matches Ok(Change::Insert(k, s)) && k == a && b.binds(endpoint_of(Update::Insert(a, m1)), Ok(s)),
        r2 matches Ok(Change::Insert(k, s)) && k == a && b.binds(endpoint_of(Update::ChangeMetadata(a, m2)), Ok(s)),
        r3 == Ok::<Change<B::Service>, DiscoverError>(Change::Remove(a)),
{
    let x1 = choose|bound: Result<B::Service, B::BindError>|
        r1 == change_for(Update::Insert(a, m1), bound) && b.binds(endpoint_of(Update::Insert(a, m1)), bound);
    let x2 = choose|bound: Result<B::Service, B::BindError>|
        r2 == change_for(Update::ChangeMetadata(a, m2), bound) && b.binds(endpoint_of(Update::ChangeMetadata(a, m2)), bound);
    assert(x1 is Ok);
    assert(x2 is Ok);
}

/// An insert and a metadata change with the same address and metadata ask
/// to bind the same endpoint.
pub proof fn lemma_insert_and_change_bind_alike(a: SocketAddr, m: Metadata)
    ensures
        endpoint_of(Update::Insert(a, m)) == endpoint_of(Update::ChangeMetadata(a, m)),
{
}

/// When binding the endpoint of an insert or a metadata change fails, the
/// update reports the opaque binding error and no change.
pub proof fn lemma_bind_failure_reports_error<B: Bind>(b: B, u: Update, r: Result<Change<B::Service>, DiscoverError>)
    requires
        !(u is Remove),
        forall|x: Result<B::Service, B::BindError>| b.binds(endpoint_of(u), x) ==> x is Err,
        handled(b, u, r),
    ensures
        r == Err::<Change<B::Service>, DiscoverError>(DiscoverError::BindFailed),
{
    let x = choose|bound: Result<B::Service, B::BindError>|
        r == change_for(u, bound) && (u is Remove || b.binds(endpoint_of(u), bound));
    assert(x is Err);
}

} // verus!

//! The updates a background process sends for one resolution, and the
//! changes to the endpoint set that a `Resolution` reports for them.
use vstd::prelude::*;

use crate::addr::SocketAddr;
use crate::metadata::Metadata;

verus! {

/// One change to a destination's endpoint set, as the background process
/// reports it.
#[derive(Clone, Debug)]
pub enum Update {
    Insert(SocketAddr, Metadata),
    Remove(SocketAddr),
    ChangeMetadata(SocketAddr, Metadata),
}

/// A change to the set of bound services, keyed by endpoint address.
#[derive(Debug)]
pub enum Change<S> {
    Insert(SocketAddr, S),
    Remove(SocketAddr),
}

/// Why polling a `Resolution` failed.
#[derive(Clone, Copy, Debug, PartialEq, Eq, Hash, Structural)]
pub enum DiscoverError {
    /// The endpoint could not be bound to a service; the binding error
    /// itself is not kept.
    BindFailed,
    /// The update stream ended, which it never does while the background
    /// process is alive: a fault of the process as a whole.
    UpdatesClosed,
    /// `poll` was called with no futures task running; nothing was received.
    OutsideTask,
}

/// What one poll of a channel's receiving end found.
#[derive(Debug)]
pub enum Received<T> {
    /// The next message.
    Item(T),
    /// Nothing yet; the current task is woken when a message arrives.
    Pending,
    /// Every sender is gone and nothing is left to receive.
    Closed,
}

/// Polling was attempted with no futures task running, so there was no task
/// to wake later; nothing was received.
#[derive(Clone, Copy, Debug, PartialEq, Eq, Hash, Structural)]
pub struct OutsideTask;

/// The outcome of polling: a value, or nothing yet.
#[derive(Debug)]
pub enum Async<T> {
    Ready(T),
    NotReady,
}

/// The address that an update is about.
pub open spec fn update_addr(u: Update) -> SocketAddr {
    match u {
        Update::Insert(a, _) => a,
        Update::Remove(a) => a,
        Update::ChangeMetadata(a, _) => a,
    }
}

/// What a binding result becomes: the bound service is inserted under
/// `addr`, and a failure to bind is an opaque discovery error.
pub open spec fn bind_outcome<S, E>(addr: SocketAddr, bound: Result<S, E>) -> Result<Change<S>, DiscoverError> {
    match bound {
        Ok(s) => Ok(Change::Insert(addr, s)),
        Err(_) => Err(DiscoverError::BindFailed),
    }
}

/// The change reported for an update, given what binding its endpoint gave.
/// An insert and a metadata change are both a (re)bind; a removal binds
/// nothing.
pub open spec fn change_for<S, E>(u: Update, bound: Result<S, E>) -> Result<Change<S>, DiscoverError> {
    match u {
        Update::Remove(a) => Ok(Change::Remove(a)),
        Update::Insert(a, _) => bind_outcome(a, bound),
        Update::ChangeMetadata(a, _) => bind_outcome(a, bound),
    }
}

/// What one poll reports for a change result: a change is ready, or the
/// error stands.
pub open spec fn ready<S>(c: Result<Change<S>, DiscoverError>) -> Result<Async<Change<S>>, DiscoverError> {
    match c {
        Ok(c) => Ok(Async::Ready(c)),
        Err(e) => Err(e),
    }
}

/// What polling the request queue reports for what was received.
pub open spec fn request_outcome<T>(received: Received<T>) -> Async<Option<T>> {
    match received {
        Received::Item(t) => Async::Ready(Some(t)),
        Received::Pending => Async::NotReady,
        Received::Closed => Async::Ready(None),
    }
}

impl Update {
    /// Returns the address that the update is about.
    pub fn addr(&self) -> (r: SocketAddr)
        ensures
            r == update_addr(*self),
    {
        match self {
            Update::Insert(a, _) => *a,
            Update::Remove(a) => *a,
            Update::ChangeMetadata(a, _) => *a,
        }
    }
}

/// Turns the result of binding the endpoint at `addr` into the change that
/// is reported.
pub fn bound_change<S, E>(addr: SocketAddr, bound: Result<S, E>) -> (r: Result<Change<S>, DiscoverError>)
    ensures
        r == bind_outcome(addr, bound),
{
    match bound {
        Ok(s) => Ok(Change::Insert(addr, s)),
        Err(_) => Err(DiscoverError::BindFailed),
    }
}

} // verus!

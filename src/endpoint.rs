//! An endpoint: the address of one instance of a destination, with its labels.
use vstd::prelude::*;

use crate::addr::SocketAddr;
use crate::labels::DstLabels;
use crate::metadata::labels_view;

verus! {

/// The address of an endpoint and the labels it was discovered with; this
/// is what a `Bind` turns into a service.
#[derive(Clone, Debug)]
pub struct Endpoint {
    address: SocketAddr,
    dst_labels: Option<DstLabels>,
}

/// The model of an endpoint.
pub struct EndpointView {
    pub address: SocketAddr,
    pub dst_labels: Option<Seq<(Seq<char>, Seq<char>)>>,
}

impl View for Endpoint {
    type V = EndpointView;

    closed spec fn view(&self) -> EndpointView {
        EndpointView { address: self.address, dst_labels: labels_view(self.dst_labels) }
    }
}

impl Endpoint {
    /// Builds the endpoint at `address` with the given labels.
    pub fn new(address: SocketAddr, dst_labels: Option<DstLabels>) -> (r: Endpoint)
        ensures
            r@.address == address,
            r@.dst_labels == labels_view(dst_labels),
    {
        Endpoint { address, dst_labels }
    }

    /// Returns the endpoint's address.
    pub fn address(&self) -> (r: SocketAddr)
        ensures
            r == self@.address,
    {
        self.address
    }

    /// Returns the endpoint's labels, if it has them.
    pub fn dst_labels(&self) -> (r: Option<&DstLabels>)
        ensures
            match r {
                Some(l) => self@.dst_labels == Some(l@),
                None => self@.dst_labels is None,
            },
    {
        self.dst_labels.as_ref()
    }
}

} // verus!

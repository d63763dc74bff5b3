//! Endpoint metadata: destination labels and the TLS capability derived
//! from them.
use vstd::prelude::*;

use crate::labels::{label_value, DstLabels};

verus! {

/// Whether a label set marks an endpoint as meshed: the `meshed` label is
/// present and its value is exactly `true`.
pub open spec fn meshed(labels: Option<Seq<(Seq<char>, Seq<char>)>>) -> bool {
    match labels {
        Some(l) => label_value(l, "meshed"@) == Some("true"@),
        None => false,
    }
}

/// Metadata describing an endpoint.
#[derive(Clone, Debug, Hash, Eq, PartialEq)]
pub struct Metadata {
    /// Metric labels describing the destination.
    dst_labels: Option<DstLabels>,
    /// Whether the endpoint supports TLS; fixed when the value is built.
    supports_tls: bool,
}

/// The model of an endpoint's metadata: its labels, if any, and its TLS flag.
pub struct MetadataView {
    pub dst_labels: Option<Seq<(Seq<char>, Seq<char>)>>,
    pub supports_tls: bool,
}

/// The model of an optional label set.
pub open spec fn labels_view(l: Option<DstLabels>) -> Option<Seq<(Seq<char>, Seq<char>)>> {
    match l {
        Some(d) => Some(d@),
        None => None,
    }
}

impl View for Metadata {
    type V = MetadataView;

    closed spec fn view(&self) -> MetadataView {
        MetadataView { dst_labels: labels_view(self.dst_labels), supports_tls: self.supports_tls }
    }
}

impl Metadata {
    /// Well-formedness: the TLS flag is the one the labels give.
    pub open spec fn wf(&self) -> bool {
        self@.supports_tls == meshed(self@.dst_labels)
    }

    /// Metadata of an endpoint about which nothing is known: no labels, and
    /// TLS is not assumed.
    pub fn no_metadata() -> (r: Metadata)
        ensures
            r@.dst_labels is None,
            !r@.supports_tls,
            r.wf(),
    {
        Metadata { dst_labels: None, supports_tls: false }
    }

    /// Metadata built from the labels that the control plane attached; TLS is
    /// supported exactly when the `meshed` label is `true`.
    pub fn from_labels(dst_labels: Option<DstLabels>) -> (r: Metadata)
        ensures
            r@.dst_labels == labels_view(dst_labels),
            r@.supports_tls == meshed(labels_view(dst_labels)),
            r.wf(),
    {
        let supports_tls = match &dst_labels {
            Some(labels) => {
                let key = "meshed".to_owned();
                proof {
                    reveal_strlit("meshed");
                }
                match labels.get(&key) {
                    Some(value) => {
                        let expected = "true".to_owned();
                        proof {
                            reveal_strlit("true");
                        }
                        *value == expected
                    },
                    None => false,
                }
            },
            None => false,
        };
        Metadata { dst_labels, supports_tls }
    }

    /// Returns `true` if the endpoint supports TLS.
    pub fn supports_tls(&self) -> (r: bool)
        ensures
            r == self@.supports_tls,
    {
        self.supports_tls
    }

    /// Gives up the metadata and returns its labels.
    pub fn into_dst_labels(self) -> (r: Option<DstLabels>)
        ensures
            labels_view(r) == self@.dst_labels,
    {
        self.dst_labels
    }

    /// Returns the endpoint's labels, if it has them.
    pub fn dst_labels(&self) -> (r: Option<&DstLabels>)
        ensures
            match r {
                Some(l) => self@.dst_labels == Some(l@),
                None => self@.dst_labels is None,
            },
    {
        self.dst_labels.as_ref()
    }
}

impl Default for Metadata {
    /// The same as `Metadata::no_metadata()`.
    fn default() -> (r: Metadata)
        ensures
            r@.dst_labels is None,
            !r@.supports_tls,
            r.wf(),
    {
        Metadata::no_metadata()
    }
}

} // verus!

verus! {

/// TLS support is derived from the labels alone: well-formed metadata
/// supports TLS exactly when it has labels and their `meshed` label is the
/// string `true`; metadata without labels never does.
pub proof fn lemma_tls_iff_meshed_true(m: Metadata)
    requires
        m.wf(),
    ensures
        m@.supports_tls <==> (m@.dst_labels matches Some(l) && label_value(l, "meshed"@) == Some("true"@)),
        m@.dst_labels is None ==> !m@.supports_tls,
{
}

} // verus!

//! The server multiplexer: every registered version's shim on one endpoint,
//! backed by one shared canonical-service instance.
//!
//! A versioned call is routed to the shim of its wire version. What a call
//! returns is a function of the shared service and of that call alone: the
//! registered set decides only which versions are reachable, never how a
//! reachable version behaves.

use vstd::prelude::*;
use crate::canonical::VectorModel;
use crate::error::{CallError, CallErrorModel, result_model};
use crate::meta::MetadataModel;
use crate::service::CanonicalService;
use crate::shim::{
    CallEvent, Inbound, Outbound, serve_print_v1, serve_print_v2, serve_sum_v1, serve_sum_v2,
    shim_print_v1_model, shim_print_v2_model, shim_sum_v1_model, shim_sum_v2_model,
};
use crate::v1;
use crate::v2;
use crate::version::{Operation, Version};

verus! {

/// A print request as it arrives on the wire, tagged with its version.
#[derive(Clone, Debug, PartialEq)]
pub enum VersionedPrintRequest {
    V1(v1::PrintRequest),
    V2(v2::PrintRequest),
}

/// A print response in the wire shape of the version that was called.
#[derive(Clone, Copy, Debug, PartialEq, Eq, Structural)]
pub enum VersionedPrintResponse {
    V1(v1::PrintResponse),
    V2(v2::PrintResponse),
}

/// A sum request as it arrives on the wire, tagged with its version.
#[derive(Clone, Debug, PartialEq)]
pub enum VersionedSumRequest {
    V1(v1::SumRequest),
    V2(v2::SumRequest),
}

/// A sum response in the wire shape of the version that was called.
#[derive(Clone, Debug, PartialEq)]
pub enum VersionedSumResponse {
    V1(v1::SumResponse),
    V2(v2::SumResponse),
}

/// The mathematical model of a [`VersionedPrintRequest`].
#[verifier::ext_equal]
pub enum VersionedPrintRequestModel {
    V1(Option<VectorModel>),
    V2(Option<VectorModel>),
}

/// The mathematical model of a [`VersionedPrintResponse`].
#[verifier::ext_equal]
pub enum VersionedPrintResponseModel {
    V1(u32),
    V2(u32),
}

/// The mathematical model of a [`VersionedSumRequest`].
#[verifier::ext_equal]
pub enum VersionedSumRequestModel {
    V1(Option<VectorModel>),
    V2(Seq<VectorModel>),
}

/// The mathematical model of a [`VersionedSumResponse`].
#[verifier::ext_equal]
pub enum VersionedSumResponseModel {
    V1(u32),
    V2(Seq<u32>),
}

impl View for VersionedPrintRequest {
    type V = VersionedPrintRequestModel;

    open spec fn view(&self) -> VersionedPrintRequestModel {
        match self {
            VersionedPrintRequest::V1(p) => VersionedPrintRequestModel::V1(p@),
            VersionedPrintRequest::V2(p) => VersionedPrintRequestModel::V2(p@),
        }
    }
}

impl View for VersionedPrintResponse {
    type V = VersionedPrintResponseModel;

    open spec fn view(&self) -> VersionedPrintResponseModel {
        match self {
            VersionedPrintResponse::V1(p) => VersionedPrintResponseModel::V1(p@),
            VersionedPrintResponse::V2(p) => VersionedPrintResponseModel::V2(p@),
        }
    }
}

impl View for VersionedSumRequest {
    type V = VersionedSumRequestModel;

    open spec fn view(&self) -> VersionedSumRequestModel {
        match self {
            VersionedSumRequest::V1(p) => VersionedSumRequestModel::V1(p@),
            VersionedSumRequest::V2(p) => VersionedSumRequestModel::V2(p@),
        }
    }
}

impl View for VersionedSumResponse {
    type V = VersionedSumResponseModel;

    open spec fn view(&self) -> VersionedSumResponseModel {
        match self {
            VersionedSumResponse::V1(p) => VersionedSumResponseModel::V1(p@),
            VersionedSumResponse::V2(p) => VersionedSumResponseModel::V2(p@),
        }
    }
}

impl VersionedPrintRequest {
    /// The wire version this request was issued in.
    pub open spec fn spec_wire_version(&self) -> Version {
        match self {
            VersionedPrintRequest::V1(_) => Version::V1,
            VersionedPrintRequest::V2(_) => Version::V2,
        }
    }
}

impl VersionedSumRequest {
    /// The wire version this request was issued in.
    pub open spec fn spec_wire_version(&self) -> Version {
        match self {
            VersionedSumRequest::V1(_) => Version::V1,
            VersionedSumRequest::V2(_) => Version::V2,
        }
    }
}

/// The model of routing one versioned print call to its version's shim.
pub open spec fn dispatch_print_model<S: CanonicalService>(
    s: S,
    meta: MetadataModel,
    req: VersionedPrintRequestModel,
) -> Result<VersionedPrintResponseModel, CallErrorModel> {
    match req {
        VersionedPrintRequestModel::V1(p) => match shim_print_v1_model(s, meta, p) {
            Ok(w) => Ok(VersionedPrintResponseModel::V1(w)),
            Err(e) => Err(e),
        },
        VersionedPrintRequestModel::V2(p) => match shim_print_v2_model(s, meta, p) {
            Ok(w) => Ok(VersionedPrintResponseModel::V2(w)),
            Err(e) => Err(e),
        },
    }
}

/// The model of routing one versioned sum call to its version's shim.
pub open spec fn dispatch_sum_model<S: CanonicalService>(
    s: S,
    meta: MetadataModel,
    req: VersionedSumRequestModel,
) -> Result<VersionedSumResponseModel, CallErrorModel> {
    match req {
        VersionedSumRequestModel::V1(p) => match shim_sum_v1_model(s, meta, p) {
            Ok(w) => Ok(VersionedSumResponseModel::V1(w)),
            Err(e) => Err(e),
        },
        VersionedSumRequestModel::V2(p) => match shim_sum_v2_model(s, meta, p) {
            Ok(w) => Ok(VersionedSumResponseModel::V2(w)),
            Err(e) => Err(e),
        },
    }
}

/// One listening endpoint: every version in `registered` is served by a shim
/// over the one shared `service` instance.
pub struct Multiplexer<S: CanonicalService> {
    pub service: S,
    pub registered: Vec<Version>,
}

impl<S: CanonicalService> Multiplexer<S> {
    /// Registers one shim per version in `versions`, all backed by the one
    /// shared service instance. Adding a version later touches neither the
    /// service nor the other versions' shims.
    pub fn new(service: S, versions: Vec<Version>) -> (r: Multiplexer<S>)
        ensures
            r.service == service,
            r.registered@ == versions@,
    {
        Multiplexer { service, registered: versions }
    }

    /// Whether `v` is a registered version.
    pub open spec fn is_registered(&self, v: Version) -> bool {
        self.registered@.contains(v)
    }

    /// Whether `v` is a registered version.
    pub fn supports(&self, v: Version) -> (r: bool)
        ensures
            r == self.is_registered(v),
    {
        let n = self.registered.len();
        let mut i: usize = 0;
        while i < n
            invariant
                i <= n,
                n == self.registered@.len(),
                forall|j: int| 0 <= j < i ==> self.registered@[j] != v,
            decreases n - i,
        {
            if self.registered[i] == v {
                return true;
            }
            i = i + 1;
        }
        false
    }

    /// Routes one print call to the shim of its wire version. The transport
    /// only delivers calls in versions that were registered on the endpoint.
    pub fn dispatch_print(&self, call: Inbound<VersionedPrintRequest>) -> (r: (
        Outbound<VersionedPrintResponse>,
        CallEvent,
    ))
        requires
            self.is_registered(call.payload.spec_wire_version()),
        ensures
            r.0.metadata@ == call.metadata@,
            result_model(r.0.result) == dispatch_print_model(
                self.service,
                call.metadata@,
                call.payload@,
            ),
            r.1 == (CallEvent {
                version: call.payload.spec_wire_version(),
                operation: Operation::Print,
                ok: r.0.result.is_ok(),
            }),
    {
        let Inbound { metadata, payload } = call;
        match payload {
            VersionedPrintRequest::V1(p) => {
                let (out, event) = serve_print_v1(&self.service, Inbound { metadata, payload: p });
                let result = match out.result {
                    Ok(w) => Ok(VersionedPrintResponse::V1(w)),
                    Err(e) => Err(e),
                };
                (Outbound { metadata: out.metadata, result }, event)
            },
            VersionedPrintRequest::V2(p) => {
                let (out, event) = serve_print_v2(&self.service, Inbound { metadata, payload: p });
                let result = match out.result {
                    Ok(w) => Ok(VersionedPrintResponse::V2(w)),
                    Err(e) => Err(e),
                };
                (Outbound { metadata: out.metadata, result }, event)
            },
        }
    }

    /// Routes one sum call to the shim of its wire version. The transport
    /// only delivers calls in versions that were registered on the endpoint.
    pub fn dispatch_sum(&self, call: Inbound<VersionedSumRequest>) -> (r: (
        Outbound<VersionedSumResponse>,
        CallEvent,
    ))
        requires
            self.is_registered(call.payload.spec_wire_version()),
        ensures
            r.0.metadata@ == call.metadata@,
            result_model(r.0.result) == dispatch_sum_model(
                self.service,
                call.metadata@,
                call.payload@,
            ),
            r.1 == (CallEvent {
                version: call.payload.spec_wire_version(),
                operation: Operation::Sum,
                ok: r.0.result.is_ok(),
            }),
    {
        let Inbound { metadata, payload } = call;
        match payload {
            VersionedSumRequest::V1(p) => {
                let (out, event) = serve_sum_v1(&self.service, Inbound { metadata, payload: p });
                let result = match out.result {
                    Ok(w) => Ok(VersionedSumResponse::V1(w)),
                    Err(e) => Err(e),
                };
                (Outbound { metadata: out.metadata, result }, event)
            },
            VersionedSumRequest::V2(p) => {
                let (out, event) = serve_sum_v2(&self.service, Inbound { metadata, payload: p });
                let result = match out.result {
                    Ok(w) => Ok(VersionedSumResponse::V2(w)),
                    Err(e) => Err(e),
                };
                (Outbound { metadata: out.metadata, result }, event)
            },
        }
    }
}

/// Registering further versions never alters the behavior an existing
/// version observes: a call's outcome is a function of the shared service
/// instance and the call itself, and does not depend on which other versions
/// are registered alongside it.
pub proof fn lemma_registration_isolated<S: CanonicalService>(
    a: Multiplexer<S>,
    b: Multiplexer<S>,
    meta: MetadataModel,
    print_req: VersionedPrintRequestModel,
    sum_req: VersionedSumRequestModel,
)
    requires
        a.service == b.service,
    ensures
        dispatch_print_model(a.service, meta, print_req) == dispatch_print_model(
            b.service,
            meta,
            print_req,
        ),
        dispatch_sum_model(a.service, meta, sum_req) == dispatch_sum_model(
            b.service,
            meta,
            sum_req,
        ),
{
}

} // verus!

//! Per-version shims: decode, invoke, encode.
//!
//! A shim implements one wire version's view of the service over the shared
//! canonical implementation. It splits call metadata from the payload,
//! embeds the payload into the canonical model (total for every structurally
//! valid wire value), invokes the canonical service with the inbound
//! metadata passed through unchanged, projects the canonical response back
//! into the version's wire shape, and re-attaches the inbound metadata to
//! the outbound response. A failed projection becomes an
//! unrepresentable-response status; business-logic errors pass through
//! unmodified. Each call also yields one structured observability event for
//! an external telemetry collaborator.

use vstd::prelude::*;
use crate::adapt::{
    v1_print_request_to_canonical, v1_print_request_to_canonical_model,
    v1_print_response_from_canonical, v1_print_response_of_canonical_model,
    v1_sum_request_to_canonical, v1_sum_request_to_canonical_model,
    v1_sum_response_from_canonical, v1_sum_response_of_canonical_model,
    v2_print_request_to_canonical, v2_print_request_to_canonical_model,
    v2_print_response_from_canonical, v2_print_response_of_canonical_model,
    v2_sum_request_to_canonical, v2_sum_request_to_canonical_model,
    v2_sum_response_from_canonical, v2_sum_response_of_canonical_model,
};
use crate::canonical::VectorModel;
use crate::error::{CallError, CallErrorModel, result_model};
use crate::meta::{Metadata, MetadataModel};
use crate::service::CanonicalService;
use crate::v1;
use crate::v2;
use crate::version::{Operation, Version};

verus! {

/// One inbound wire call: its metadata and its payload.
pub struct Inbound<P> {
    pub metadata: Metadata,
    pub payload: P,
}

/// One outbound wire response: the metadata it carries and its payload or
/// failure.
pub struct Outbound<P> {
    pub metadata: Metadata,
    pub result: Result<P, CallError>,
}

/// One structured call-observability event, handed to an external telemetry
/// collaborator by the caller of a shim.
#[derive(Clone, Copy, Debug, PartialEq, Eq, Structural)]
pub struct CallEvent {
    pub version: Version,
    pub operation: Operation,
    pub ok: bool,
}

/// The model of one full V1 print call: embed the payload, invoke the
/// service on the inbound metadata, project the canonical response.
pub open spec fn shim_print_v1_model<S: CanonicalService>(
    s: S,
    meta: MetadataModel,
    req: Option<VectorModel>,
) -> Result<u32, CallErrorModel> {
    match s.print_model(meta, v1_print_request_to_canonical_model(req)) {
        Err(b) => Err(CallErrorModel::Business(b)),
        Ok(c) => match v1_print_response_of_canonical_model(c) {
            Ok(w) => Ok(w),
            Err(e) => Err(CallErrorModel::Unrepresentable(e)),
        },
    }
}

/// The model of one full V1 sum call.
pub open spec fn shim_sum_v1_model<S: CanonicalService>(
    s: S,
    meta: MetadataModel,
    req: Option<VectorModel>,
) -> Result<u32, CallErrorModel> {
    match s.sum_model(meta, v1_sum_request_to_canonical_model(req)) {
        Err(b) => Err(CallErrorModel::Business(b)),
        Ok(c) => match v1_sum_response_of_canonical_model(c) {
            Ok(w) => Ok(w),
            Err(e) => Err(CallErrorModel::Unrepresentable(e)),
        },
    }
}

/// The model of one full V2 print call.
pub open spec fn shim_print_v2_model<S: CanonicalService>(
    s: S,
    meta: MetadataModel,
    req: Option<VectorModel>,
) -> Result<u32, CallErrorModel> {
    match s.print_model(meta, v2_print_request_to_canonical_model(req)) {
        Err(b) => Err(CallErrorModel::Business(b)),
        Ok(c) => match v2_print_response_of_canonical_model(c) {
            Ok(w) => Ok(w),
            Err(e) => Err(CallErrorModel::Unrepresentable(e)),
        },
    }
}

/// The model of one full V2 sum call.
pub open spec fn shim_sum_v2_model<S: CanonicalService>(
    s: S,
    meta: MetadataModel,
    req: Seq<VectorModel>,
) -> Result<Seq<u32>, CallErrorModel> {
    match s.sum_model(meta, v2_sum_request_to_canonical_model(req)) {
        Err(b) => Err(CallErrorModel::Business(b)),
        Ok(c) => match v2_sum_response_of_canonical_model(c) {
            Ok(w) => Ok(w),
            Err(e) => Err(CallErrorModel::Unrepresentable(e)),
        },
    }
}

/// Serves one V1 print call: the service observes the inbound metadata
/// unchanged, and the outbound response echoes that same metadata.
pub fn serve_print_v1<S: CanonicalService>(service: &S, call: Inbound<v1::PrintRequest>) -> (r: (
    Outbound<v1::PrintResponse>,
    CallEvent,
))
    ensures
        r.0.metadata@ == call.metadata@,
        result_model(r.0.result) == shim_print_v1_model(*service, call.metadata@, call.payload@),
        r.1 == (CallEvent {
            version: Version::V1,
            operation: Operation::Print,
            ok: r.0.result.is_ok(),
        }),
{
    let Inbound { metadata, payload } = call;
    let creq = v1_print_request_to_canonical(payload);
    let result = match service.print(&metadata, creq) {
        Err(b) => Err(CallError::Business(b)),
        Ok(cresp) => match v1_print_response_from_canonical(cresp) {
            Ok(w) => Ok(w),
            Err(e) => Err(CallError::Unrepresentable(e)),
        },
    };
    let ok = result.is_ok();
    let event = CallEvent { version: Version::V1, operation: Operation::Print, ok };
    (Outbound { metadata, result }, event)
}

/// Serves one V1 sum call: the service observes the inbound metadata
/// unchanged, and the outbound response echoes that same metadata.
pub fn serve_sum_v1<S: CanonicalService>(service: &S, call: Inbound<v1::SumRequest>) -> (r: (
    Outbound<v1::SumResponse>,
    CallEvent,
))
    ensures
        r.0.metadata@ == call.metadata@,
        result_model(r.0.result) == shim_sum_v1_model(*service, call.metadata@, call.payload@),
        r.1 == (CallEvent {
            version: Version::V1,
            operation: Operation::Sum,
            ok: r.0.result.is_ok(),
        }),
{
    let Inbound { metadata, payload } = call;
    let creq = v1_sum_request_to_canonical(payload);
    let result = match service.sum(&metadata, creq) {
        Err(b) => Err(CallError::Business(b)),
        Ok(cresp) => match v1_sum_response_from_canonical(cresp) {
            Ok(w) => Ok(w),
            Err(e) => Err(CallError::Unrepresentable(e)),
        },
    };
    let ok = result.is_ok();
    let event = CallEvent { version: Version::V1, operation: Operation::Sum, ok };
    (Outbound { metadata, result }, event)
}

/// Serves one V2 print call: the service observes the inbound metadata
/// unchanged, and the outbound response echoes that same metadata.
pub fn serve_print_v2<S: CanonicalService>(service: &S, call: Inbound<v2::PrintRequest>) -> (r: (
    Outbound<v2::PrintResponse>,
    CallEvent,
))
    ensures
        r.0.metadata@ == call.metadata@,
        result_model(r.0.result) == shim_print_v2_model(*service, call.metadata@, call.payload@),
        r.1 == (CallEvent {
            version: Version::V2,
            operation: Operation::Print,
            ok: r.0.result.is_ok(),
        }),
{
    let Inbound { metadata, payload } = call;
    let creq = v2_print_request_to_canonical(payload);
    let result = match service.print(&metadata, creq) {
        Err(b) => Err(CallError::Business(b)),
        Ok(cresp) => match v2_print_response_from_canonical(cresp) {
            Ok(w) => Ok(w),
            Err(e) => Err(CallError::Unrepresentable(e)),
        },
    };
    let ok = result.is_ok();
    let event = CallEvent { version: Version::V2, operation: Operation::Print, ok };
    (Outbound { metadata, result }, event)
}

/// Serves one V2 sum call: the service observes the inbound metadata
/// unchanged, and the outbound response echoes that same metadata.
pub fn serve_sum_v2<S: CanonicalService>(service: &S, call: Inbound<v2::SumRequest>) -> (r: (
    Outbound<v2::SumResponse>,
    CallEvent,
))
    ensures
        r.0.metadata@ == call.metadata@,
        result_model(r.0.result) == shim_sum_v2_model(*service, call.metadata@, call.payload@),
        r.1 == (CallEvent {
            version: Version::V2,
            operation: Operation::Sum,
            ok: r.0.result.is_ok(),
        }),
{
    let Inbound { metadata, payload } = call;
    let creq = v2_sum_request_to_canonical(payload);
    let result = match service.sum(&metadata, creq) {
        Err(b) => Err(CallError::Business(b)),
        Ok(cresp) => match v2_sum_response_from_canonical(cresp) {
            Ok(w) => Ok(w),
            Err(e) => Err(CallError::Unrepresentable(e)),
        },
    };
    let ok = result.is_ok();
    let event = CallEvent { version: Version::V2, operation: Operation::Sum, ok };
    (Outbound { metadata, result }, event)
}

} // verus!

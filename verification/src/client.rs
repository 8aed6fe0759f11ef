//! The client-side codec of the versioned client.
//!
//! A caller builds canonical requests and selects a target version
//! explicitly; the codec converts the request into that version's wire shape
//! (failing with a typed [`CardinalityError`] when the version cannot
//! express it) and converts wire responses back into canonical shapes. The
//! connection handling around these conversions is the transport's business,
//! not this crate's.

use vstd::prelude::*;
use crate::adapt::{
    lemma_v1_sum_request_widen_round_trip, lemma_v1_sum_response_widen_round_trip,
    v1_print_request_from_canonical, v1_print_request_of_canonical_model,
    v1_print_response_to_canonical, v1_print_response_to_canonical_model,
    v1_sum_request_from_canonical, v1_sum_request_of_canonical_model,
    v1_sum_response_to_canonical, v1_sum_response_to_canonical_model,
    v2_print_request_from_canonical, v2_print_request_of_canonical_model,
    v2_print_response_to_canonical, v2_print_response_to_canonical_model,
    v2_sum_request_from_canonical, v2_sum_request_of_canonical_model, v2_sum_response_to_canonical,
    v2_sum_response_to_canonical_model, v1_sum_response_of_canonical_model,
};
use crate::canonical;
use crate::canonical::VectorModel;
use crate::error::{CardinalityError, CardinalityErrorModel, result_model};
use crate::meta::MetadataModel;
use crate::mux::{
    VersionedPrintRequest, VersionedPrintRequestModel, VersionedPrintResponse,
    VersionedPrintResponseModel, VersionedSumRequest, VersionedSumRequestModel,
    VersionedSumResponse, VersionedSumResponseModel, dispatch_print_model, dispatch_sum_model,
};
use crate::service::CanonicalService;
use crate::version::Version;

verus! {

/// The model of encoding a canonical print request for a target version.
pub open spec fn client_encode_print_model(version: Version, c: Option<VectorModel>) -> Result<
    VersionedPrintRequestModel,
    CardinalityErrorModel,
> {
    match version {
        Version::V1 => match v1_print_request_of_canonical_model(c) {
            Ok(p) => Ok(VersionedPrintRequestModel::V1(p)),
            Err(e) => Err(e),
        },
        Version::V2 => match v2_print_request_of_canonical_model(c) {
            Ok(p) => Ok(VersionedPrintRequestModel::V2(p)),
            Err(e) => Err(e),
        },
    }
}

/// The model of decoding a wire print response back into the canonical
/// shape.
pub open spec fn client_decode_print_model(w: VersionedPrintResponseModel) -> u32 {
    match w {
        VersionedPrintResponseModel::V1(p) => v1_print_response_to_canonical_model(p),
        VersionedPrintResponseModel::V2(p) => v2_print_response_to_canonical_model(p),
    }
}

/// The model of encoding a canonical sum request for a target version.
pub open spec fn client_encode_sum_model(version: Version, c: Seq<VectorModel>) -> Result<
    VersionedSumRequestModel,
    CardinalityErrorModel,
> {
    match version {
        Version::V1 => match v1_sum_request_of_canonical_model(c) {
            Ok(p) => Ok(VersionedSumRequestModel::V1(p)),
            Err(e) => Err(e),
        },
        Version::V2 => match v2_sum_request_of_canonical_model(c) {
            Ok(p) => Ok(VersionedSumRequestModel::V2(p)),
            Err(e) => Err(e),
        },
    }
}

/// The model of decoding a wire sum response back into the canonical shape.
pub open spec fn client_decode_sum_model(w: VersionedSumResponseModel) -> Seq<u32> {
    match w {
        VersionedSumResponseModel::V1(p) => v1_sum_response_to_canonical_model(p),
        VersionedSumResponseModel::V2(p) => v2_sum_response_to_canonical_model(p),
    }
}

/// Converts a canonical print request into the wire request of the
/// explicitly selected target version.
pub fn client_encode_print(version: Version, req: canonical::PrintRequest) -> (r: Result<
    VersionedPrintRequest,
    CardinalityError,
>)
    ensures
        result_model(r) == client_encode_print_model(version, req@),
{
    match version {
        Version::V1 => match v1_print_request_from_canonical(req) {
            Ok(p) => Ok(VersionedPrintRequest::V1(p)),
            Err(e) => Err(e),
        },
        Version::V2 => match v2_print_request_from_canonical(req) {
            Ok(p) => Ok(VersionedPrintRequest::V2(p)),
            Err(e) => Err(e),
        },
    }
}

/// Converts a wire print response of any version back into the canonical
/// shape.
pub fn client_decode_print(resp: VersionedPrintResponse) -> (r: canonical::PrintResponse)
    ensures
        r@ == client_decode_print_model(resp@),
{
    match resp {
        VersionedPrintResponse::V1(p) => v1_print_response_to_canonical(p),
        VersionedPrintResponse::V2(p) => v2_print_response_to_canonical(p),
    }
}

/// Converts a canonical sum request into the wire request of the explicitly
/// selected target version. Fails with a typed [`CardinalityError`] when the
/// version cannot express the request's shape.
pub fn client_encode_sum(version: Version, req: canonical::SumRequest) -> (r: Result<
    VersionedSumRequest,
    CardinalityError,
>)
    ensures
        result_model(r) == client_encode_sum_model(version, req@),
{
    match version {
        Version::V1 => match v1_sum_request_from_canonical(req) {
            Ok(p) => Ok(VersionedSumRequest::V1(p)),
            Err(e) => Err(e),
        },
        Version::V2 => match v2_sum_request_from_canonical(req) {
            Ok(p) => Ok(VersionedSumRequest::V2(p)),
            Err(e) => Err(e),
        },
    }
}

/// Converts a wire sum response of any version back into the canonical
/// shape.
pub fn client_decode_sum(resp: VersionedSumResponse) -> (r: canonical::SumResponse)
    ensures
        r@ == client_decode_sum_model(resp@),
{
    match resp {
        VersionedSumResponse::V1(p) => v1_sum_response_to_canonical(p),
        VersionedSumResponse::V2(p) => v2_sum_response_to_canonical(p),
    }
}

/// End-to-end correctness of a print call through any version: a canonical
/// print request, encoded for a version, dispatched by the server, and
/// decoded again, yields exactly the canonical response of the shared
/// service. Print encoding is total, so no expressibility caveat is needed.
pub proof fn lemma_print_end_to_end<S: CanonicalService>(
    s: S,
    meta: MetadataModel,
    c: Option<VectorModel>,
    version: Version,
)
    requires
        s.print_model(meta, c) is Ok,
    ensures
        client_encode_print_model(version, c) is Ok,
        dispatch_print_model(s, meta, client_encode_print_model(version, c)->Ok_0) is Ok,
        client_decode_print_model(
            dispatch_print_model(s, meta, client_encode_print_model(version, c)->Ok_0)->Ok_0,
        ) == s.print_model(meta, c)->Ok_0,
{
}

/// End-to-end correctness of a sum call through any version: a canonical sum
/// request the version can express, encoded, dispatched by the server, and
/// decoded again, yields exactly the canonical response of the shared
/// service, whenever that response is itself expressible in the version.
pub proof fn lemma_sum_end_to_end<S: CanonicalService>(
    s: S,
    meta: MetadataModel,
    c: Seq<VectorModel>,
    version: Version,
)
    requires
        client_encode_sum_model(version, c) is Ok,
        s.sum_model(meta, c) is Ok,
        version == Version::V1 ==> v1_sum_response_of_canonical_model(
            s.sum_model(meta, c)->Ok_0,
        ) is Ok,
    ensures
        dispatch_sum_model(s, meta, client_encode_sum_model(version, c)->Ok_0) is Ok,
        client_decode_sum_model(
            dispatch_sum_model(s, meta, client_encode_sum_model(version, c)->Ok_0)->Ok_0,
        ) == s.sum_model(meta, c)->Ok_0,
{
    match version {
        Version::V1 => {
            lemma_v1_sum_request_widen_round_trip(c);
            lemma_v1_sum_response_widen_round_trip(s.sum_model(meta, c)->Ok_0);
        },
        Version::V2 => {
        },
    }
}

} // verus!

//! Bidirectional adapters between each wire version's shapes and the
//! canonical model.
//!
//! For each (version, message type) there is a total `*_to_canonical`
//! embedding and a `*_from_canonical` projection that fails with a typed
//! [`CardinalityError`] when the canonical value's shape cannot be
//! represented in that version's schema. Adapters never truncate: a canonical
//! value that does not fit is rejected, never silently narrowed.

use vstd::prelude::*;
use crate::canonical;
use crate::canonical::VectorModel;
use crate::error::{Cardinality, CanonicalField, CardinalityError, CardinalityErrorModel, result_model};
use crate::v1;
use crate::v2;
use crate::version::{Compatibility, Operation, Version, spec_compatibility};

verus! {

// ---------------------------------------------------------------------------
// V1 adapters, at the level of the mathematical models.
// ---------------------------------------------------------------------------

pub open spec fn v1_print_request_to_canonical_model(r: Option<VectorModel>) -> Option<
    VectorModel,
> {
    r
}

pub open spec fn v1_print_request_of_canonical_model(c: Option<VectorModel>) -> Result<
    Option<VectorModel>,
    CardinalityErrorModel,
> {
    Ok(c)
}

pub open spec fn v1_print_response_to_canonical_model(r: u32) -> u32 {
    r
}

pub open spec fn v1_print_response_of_canonical_model(c: u32) -> Result<
    u32,
    CardinalityErrorModel,
> {
    Ok(c)
}

pub open spec fn v1_sum_request_to_canonical_model(r: Option<VectorModel>) -> Seq<VectorModel> {
    match r {
        Some(v) => seq![v],
        None => Seq::empty(),
    }
}

pub open spec fn v1_sum_request_of_canonical_model(c: Seq<VectorModel>) -> Result<
    Option<VectorModel>,
    CardinalityErrorModel,
> {
    if c.len() == 0 {
        Ok(None)
    } else if c.len() == 1 {
        Ok(Some(c[0]))
    } else {
        Err(
            CardinalityErrorModel {
                field: CanonicalField::Vectors,
                constraint: Cardinality::AtMostOne,
                actual: c.len(),
            },
        )
    }
}

pub open spec fn v1_sum_response_to_canonical_model(r: u32) -> Seq<u32> {
    seq![r]
}

pub open spec fn v1_sum_response_of_canonical_model(c: Seq<u32>) -> Result<
    u32,
    CardinalityErrorModel,
> {
    if c.len() == 1 {
        Ok(c[0])
    } else {
        Err(
            CardinalityErrorModel {
                field: CanonicalField::Sum,
                constraint: Cardinality::ExactlyOne,
                actual: c.len(),
            },
        )
    }
}

// ---------------------------------------------------------------------------
// V2 adapters, at the level of the mathematical models. V2's shapes match
// the canonical shapes exactly, so both directions are total.
// ---------------------------------------------------------------------------

pub open spec fn v2_print_request_to_canonical_model(r: Option<VectorModel>) -> Option<
    VectorModel,
> {
    r
}

pub open spec fn v2_print_request_of_canonical_model(c: Option<VectorModel>) -> Result<
    Option<VectorModel>,
    CardinalityErrorModel,
> {
    Ok(c)
}

pub open spec fn v2_print_response_to_canonical_model(r: u32) -> u32 {
    r
}

pub open spec fn v2_print_response_of_canonical_model(c: u32) -> Result<
    u32,
    CardinalityErrorModel,
> {
    Ok(c)
}

pub open spec fn v2_sum_request_to_canonical_model(r: Seq<VectorModel>) -> Seq<VectorModel> {
    r
}

pub open spec fn v2_sum_request_of_canonical_model(c: Seq<VectorModel>) -> Result<
    Seq<VectorModel>,
    CardinalityErrorModel,
> {
    Ok(c)
}

pub open spec fn v2_sum_response_to_canonical_model(r: Seq<u32>) -> Seq<u32> {
    r
}

pub open spec fn v2_sum_response_of_canonical_model(c: Seq<u32>) -> Result<
    Seq<u32>,
    CardinalityErrorModel,
> {
    Ok(c)
}

// ---------------------------------------------------------------------------
// V1 adapters, executable.
// ---------------------------------------------------------------------------

/// Embeds a V1 print request into the canonical model. Total.
pub fn v1_print_request_to_canonical(r: v1::PrintRequest) -> (c: canonical::PrintRequest)
    ensures
        c@ == v1_print_request_to_canonical_model(r@),
{
    canonical::PrintRequest { vector: r.vector }
}

/// Projects a canonical print request into V1's schema. Never fails: the
/// shapes are equal.
pub fn v1_print_request_from_canonical(c: canonical::PrintRequest) -> (r: Result<
    v1::PrintRequest,
    CardinalityError,
>)
    ensures
        result_model(r) == v1_print_request_of_canonical_model(c@),
{
    Ok(v1::PrintRequest { vector: c.vector })
}

/// Embeds a V1 print response into the canonical model. Total.
pub fn v1_print_response_to_canonical(r: v1::PrintResponse) -> (c: canonical::PrintResponse)
    ensures
        c@ == v1_print_response_to_canonical_model(r@),
{
    canonical::PrintResponse { printed_count: r.printed_count }
}

/// Projects a canonical print response into V1's schema. Never fails: the
/// shapes are equal.
pub fn v1_print_response_from_canonical(c: canonical::PrintResponse) -> (r: Result<
    v1::PrintResponse,
    CardinalityError,
>)
    ensures
        result_model(r) == v1_print_response_of_canonical_model(c@),
{
    Ok(v1::PrintResponse { printed_count: c.printed_count })
}

/// Embeds a V1 sum request into the canonical model: the optional vector
/// becomes a sequence of length zero or one. Total.
pub fn v1_sum_request_to_canonical(r: v1::SumRequest) -> (c: canonical::SumRequest)
    ensures
        c@ == v1_sum_request_to_canonical_model(r@),
{
    let ghost rm = r@;
    let c = match r.vector {
        Some(v) => canonical::SumRequest { vectors: vec![v] },
        None => canonical::SumRequest { vectors: Vec::new() },
    };
    proof {
        assert(c@ =~= v1_sum_request_to_canonical_model(rm));
    }
    c
}

/// Projects a canonical sum request into V1's schema, which admits at most
/// one vector. Fails with a [`CardinalityError`] on the `vectors` field when
/// the canonical request holds two or more vectors.
pub fn v1_sum_request_from_canonical(c: canonical::SumRequest) -> (r: Result<
    v1::SumRequest,
    CardinalityError,
>)
    ensures
        result_model(r) == v1_sum_request_of_canonical_model(c@),
{
    let ghost cm = c@;
    let mut vectors = c.vectors;
    let n = vectors.len();
    if n == 0 {
        Ok(v1::SumRequest { vector: None })
    } else if n == 1 {
        let v = match vectors.pop() {
            Some(v) => v,
            None => unreached(),
        };
        proof {
            assert(v@ == cm[0]);
        }
        Ok(v1::SumRequest { vector: Some(v) })
    } else {
        Err(
            CardinalityError {
                field: CanonicalField::Vectors,
                constraint: Cardinality::AtMostOne,
                actual: n,
            },
        )
    }
}

/// Embeds a V1 sum response into the canonical model: the single aggregate
/// sum becomes a sequence of length one. Total.
pub fn v1_sum_response_to_canonical(r: v1::SumResponse) -> (c: canonical::SumResponse)
    ensures
        c@ == v1_sum_response_to_canonical_model(r@),
{
    let c = canonical::SumResponse { sum: vec![r.sum] };
    proof {
        assert(c@ =~= seq![r.sum]);
    }
    c
}

/// Projects a canonical sum response into V1's schema, which carries exactly
/// one sum. Fails with a [`CardinalityError`] on the `sum` field when the
/// canonical response does not hold exactly one sum.
pub fn v1_sum_response_from_canonical(c: canonical::SumResponse) -> (r: Result<
    v1::SumResponse,
    CardinalityError,
>)
    ensures
        result_model(r) == v1_sum_response_of_canonical_model(c@),
{
    let n = c.sum.len();
    if n == 1 {
        Ok(v1::SumResponse { sum: c.sum[0] })
    } else {
        Err(
            CardinalityError {
                field: CanonicalField::Sum,
                constraint: Cardinality::ExactlyOne,
                actual: n,
            },
        )
    }
}

// ---------------------------------------------------------------------------
// V2 adapters, executable. V2's shapes equal the canonical shapes, so every
// conversion moves the fields across and both directions are total.
// ---------------------------------------------------------------------------

/// Embeds a V2 print request into the canonical model. Total.
pub fn v2_print_request_to_canonical(r: v2::PrintRequest) -> (c: canonical::PrintRequest)
    ensures
        c@ == v2_print_request_to_canonical_model(r@),
{
    canonical::PrintRequest { vector: r.vector }
}

/// Projects a canonical print request into V2's schema. Never fails: the
/// shapes are equal.
pub fn v2_print_request_from_canonical(c: canonical::PrintRequest) -> (r: Result<
    v2::PrintRequest,
    CardinalityError,
>)
    ensures
        result_model(r) == v2_print_request_of_canonical_model(c@),
{
    Ok(v2::PrintRequest { vector: c.vector })
}

/// Embeds a V2 print response into the canonical model. Total.
pub fn v2_print_response_to_canonical(r: v2::PrintResponse) -> (c: canonical::PrintResponse)
    ensures
        c@ == v2_print_response_to_canonical_model(r@),
{
    canonical::PrintResponse { printed_count: r.printed_count }
}

/// Projects a canonical print response into V2's schema. Never fails: the
/// shapes are equal.
pub fn v2_print_response_from_canonical(c: canonical::PrintResponse) -> (r: Result<
    v2::PrintResponse,
    CardinalityError,
>)
    ensures
        result_model(r) == v2_print_response_of_canonical_model(c@),
{
    Ok(v2::PrintResponse { printed_count: c.printed_count })
}

/// Embeds a V2 sum request into the canonical model. Total.
pub fn v2_sum_request_to_canonical(r: v2::SumRequest) -> (c: canonical::SumRequest)
    ensures
        c@ == v2_sum_request_to_canonical_model(r@),
{
    canonical::SumRequest { vectors: r.vectors }
}

/// Projects a canonical sum request into V2's schema, preserving the order
/// of the vectors. Never fails: the shapes are equal.
pub fn v2_sum_request_from_canonical(c: canonical::SumRequest) -> (r: Result<
    v2::SumRequest,
    CardinalityError,
>)
    ensures
        result_model(r) == v2_sum_request_of_canonical_model(c@),
{
    Ok(v2::SumRequest { vectors: c.vectors })
}

/// Embeds a V2 sum response into the canonical model. Total.
pub fn v2_sum_response_to_canonical(r: v2::SumResponse) -> (c: canonical::SumResponse)
    ensures
        c@ == v2_sum_response_to_canonical_model(r@),
{
    canonical::SumResponse { sum: r.sum }
}

/// Projects a canonical sum response into V2's schema, preserving the order
/// of the sums. Never fails: the shapes are equal.
pub fn v2_sum_response_from_canonical(c: canonical::SumResponse) -> (r: Result<
    v2::SumResponse,
    CardinalityError,
>)
    ensures
        result_model(r) == v2_sum_response_of_canonical_model(c@),
{
    Ok(v2::SumResponse { sum: c.sum })
}

// ---------------------------------------------------------------------------
// Laws.
// ---------------------------------------------------------------------------

/// Every payload expressible in V1's print-request schema round-trips
/// losslessly through the canonical model and back.
pub proof fn lemma_v1_print_request_round_trip(p: Option<VectorModel>)
    ensures
        v1_print_request_of_canonical_model(v1_print_request_to_canonical_model(p)) == Ok::<_, CardinalityErrorModel>(p),
{
}

/// Every payload expressible in V1's print-response schema round-trips
/// losslessly through the canonical model and back.
pub proof fn lemma_v1_print_response_round_trip(p: u32)
    ensures
        v1_print_response_of_canonical_model(v1_print_response_to_canonical_model(p)) == Ok::<_, CardinalityErrorModel>(p),
{
}

/// Every payload expressible in V1's sum-request schema round-trips
/// losslessly through the canonical model and back.
pub proof fn lemma_v1_sum_request_round_trip(p: Option<VectorModel>)
    ensures
        v1_sum_request_of_canonical_model(v1_sum_request_to_canonical_model(p)) == Ok::<_, CardinalityErrorModel>(p),
{
}

/// Every payload expressible in V1's sum-response schema round-trips
/// losslessly through the canonical model and back.
pub proof fn lemma_v1_sum_response_round_trip(p: u32)
    ensures
        v1_sum_response_of_canonical_model(v1_sum_response_to_canonical_model(p)) == Ok::<_, CardinalityErrorModel>(p),
{
}

/// Every payload expressible in V2's print-request schema round-trips
/// losslessly through the canonical model and back.
pub proof fn lemma_v2_print_request_round_trip(p: Option<VectorModel>)
    ensures
        v2_print_request_of_canonical_model(v2_print_request_to_canonical_model(p)) == Ok::<_, CardinalityErrorModel>(p),
{
}

/// Every payload expressible in V2's print-response schema round-trips
/// losslessly through the canonical model and back.
pub proof fn lemma_v2_print_response_round_trip(p: u32)
    ensures
        v2_print_response_of_canonical_model(v2_print_response_to_canonical_model(p)) == Ok::<_, CardinalityErrorModel>(p),
{
}

/// Every payload expressible in V2's sum-request schema round-trips
/// losslessly through the canonical model and back.
pub proof fn lemma_v2_sum_request_round_trip(p: Seq<VectorModel>)
    ensures
        v2_sum_request_of_canonical_model(v2_sum_request_to_canonical_model(p)) == Ok::<_, CardinalityErrorModel>(p),
{
}

/// Every payload expressible in V2's sum-response schema round-trips
/// losslessly through the canonical model and back.
pub proof fn lemma_v2_sum_response_round_trip(p: Seq<u32>)
    ensures
        v2_sum_response_of_canonical_model(v2_sum_response_to_canonical_model(p)) == Ok::<_, CardinalityErrorModel>(p),
{
}

/// A canonical sum request that V1 can represent converts to V1 and embeds
/// back into the very same canonical value.
pub proof fn lemma_v1_sum_request_widen_round_trip(c: Seq<VectorModel>)
    requires
        v1_sum_request_of_canonical_model(c) is Ok,
    ensures
        v1_sum_request_to_canonical_model(v1_sum_request_of_canonical_model(c)->Ok_0) == c,
{
    if c.len() == 0 {
        assert(v1_sum_request_to_canonical_model(None) =~= c);
    } else {
        assert(v1_sum_request_to_canonical_model(Some(c[0])) =~= c);
    }
}

/// A canonical sum response that V1 can represent converts to V1 and embeds
/// back into the very same canonical value.
pub proof fn lemma_v1_sum_response_widen_round_trip(c: Seq<u32>)
    requires
        v1_sum_response_of_canonical_model(c) is Ok,
    ensures
        v1_sum_response_to_canonical_model(v1_sum_response_of_canonical_model(c)->Ok_0) == c,
{
    assert(seq![c[0]] =~= c);
}

/// Projecting a canonical sum request into V1 succeeds exactly on requests
/// with at most one vector; on any larger request it fails with a
/// [`CardinalityError`] naming the `vectors` field, and never truncates.
pub proof fn lemma_v1_sum_request_narrowing(c: Seq<VectorModel>)
    ensures
        v1_sum_request_of_canonical_model(c) is Ok <==> c.len() <= 1,
        c.len() > 1 ==> v1_sum_request_of_canonical_model(c) == Err::<Option<VectorModel>, CardinalityErrorModel>(
            CardinalityErrorModel {
                field: CanonicalField::Vectors,
                constraint: Cardinality::AtMostOne,
                actual: c.len(),
            },
        ),
{
}

/// Projecting a canonical sum response into V1 succeeds exactly on responses
/// with exactly one sum; otherwise it fails with a [`CardinalityError`]
/// naming the `sum` field.
pub proof fn lemma_v1_sum_response_narrowing(c: Seq<u32>)
    ensures
        v1_sum_response_of_canonical_model(c) is Ok <==> c.len() == 1,
        c.len() != 1 ==> v1_sum_response_of_canonical_model(c) == Err::<u32, CardinalityErrorModel>(
            CardinalityErrorModel {
                field: CanonicalField::Sum,
                constraint: Cardinality::ExactlyOne,
                actual: c.len(),
            },
        ),
{
}

/// Wherever the compatibility table declares `Equal` for V1, projecting a
/// canonical value into V1 never fails.
pub proof fn lemma_v1_equal_never_fails(c_req: Option<VectorModel>, c_resp: u32)
    ensures
        spec_compatibility(Version::V1, Operation::Print) == Compatibility::Equal,
        v1_print_request_of_canonical_model(c_req) == Ok::<_, CardinalityErrorModel>(c_req),
        v1_print_response_of_canonical_model(c_resp) == Ok::<_, CardinalityErrorModel>(c_resp),
{
}

/// Wherever the compatibility table declares `Equal` for V2 — which is every
/// operation — projecting a canonical value into V2 never fails.
pub proof fn lemma_v2_equal_never_fails(
    c_print_req: Option<VectorModel>,
    c_print_resp: u32,
    c_sum_req: Seq<VectorModel>,
    c_sum_resp: Seq<u32>,
)
    ensures
        spec_compatibility(Version::V2, Operation::Print) == Compatibility::Equal,
        spec_compatibility(Version::V2, Operation::Sum) == Compatibility::Equal,
        v2_print_request_of_canonical_model(c_print_req) == Ok::<_, CardinalityErrorModel>(c_print_req),
        v2_print_response_of_canonical_model(c_print_resp) == Ok::<_, CardinalityErrorModel>(c_print_resp),
        v2_sum_request_of_canonical_model(c_sum_req) == Ok::<_, CardinalityErrorModel>(c_sum_req),
        v2_sum_response_of_canonical_model(c_sum_resp) == Ok::<_, CardinalityErrorModel>(c_sum_resp),
{
}

} // verus!

use versioning_grpc::adapt::{
    v1_print_request_from_canonical, v1_print_request_to_canonical, v1_sum_request_from_canonical,
    v1_sum_request_to_canonical, v1_sum_response_from_canonical, v1_sum_response_to_canonical,
    v2_sum_request_from_canonical, v2_sum_request_to_canonical, v2_sum_response_from_canonical,
    v2_sum_response_to_canonical,
};
use versioning_grpc::canonical;
use versioning_grpc::error::{Cardinality, CanonicalField, CardinalityError};
use versioning_grpc::v1;
use versioning_grpc::v2;
use versioning_grpc::version::{compatibility, Compatibility, Operation, Version};
use versioning_grpc::Vector;

fn vector(id: &str, values: Vec<u32>) -> Vector {
    Vector {
        id: id.to_string(),
        values,
    }
}

#[test]
fn v1_sum_request_round_trips_some() {
    let payload = v1::SumRequest {
        vector: Some(vector("id1", vec![1, 2, 3])),
    };
    let canonical = v1_sum_request_to_canonical(payload.clone());
    assert_eq!(canonical.vectors.len(), 1);
    let back = v1_sum_request_from_canonical(canonical).unwrap();
    assert_eq!(back, payload);
}

#[test]
fn v1_sum_request_round_trips_none() {
    let payload = v1::SumRequest { vector: None };
    let canonical = v1_sum_request_to_canonical(payload.clone());
    assert_eq!(canonical.vectors.len(), 0);
    let back = v1_sum_request_from_canonical(canonical).unwrap();
    assert_eq!(back, payload);
}

#[test]
fn v1_sum_response_round_trips() {
    let payload = v1::SumResponse { sum: 42 };
    let canonical = v1_sum_response_to_canonical(payload);
    assert_eq!(canonical.sum, vec![42]);
    let back = v1_sum_response_from_canonical(canonical).unwrap();
    assert_eq!(back, payload);
}

#[test]
fn v1_print_request_round_trips() {
    let payload = v1::PrintRequest {
        vector: Some(vector("id1", vec![7])),
    };
    let canonical = v1_print_request_to_canonical(payload.clone());
    let back = v1_print_request_from_canonical(canonical).unwrap();
    assert_eq!(back, payload);
}

#[test]
fn v2_sum_request_round_trips_preserving_order() {
    let payload = v2::SumRequest {
        vectors: vec![vector("id1", vec![1, 1, 1]), vector("id2", vec![2, 2, 2])],
    };
    let canonical = v2_sum_request_to_canonical(payload.clone());
    assert_eq!(canonical.vectors[0].id, "id1");
    assert_eq!(canonical.vectors[1].id, "id2");
    let back = v2_sum_request_from_canonical(canonical).unwrap();
    assert_eq!(back, payload);
}

#[test]
fn v2_sum_response_round_trips() {
    let payload = v2::SumResponse { sum: vec![3, 6, 9] };
    let canonical = v2_sum_response_to_canonical(payload.clone());
    let back = v2_sum_response_from_canonical(canonical).unwrap();
    assert_eq!(back, payload);
}

#[test]
fn narrowing_two_vectors_fails_for_v1_and_succeeds_for_v2() {
    let canonical_request = canonical::SumRequest {
        vectors: vec![vector("id1", vec![1, 1, 1]), vector("id2", vec![2, 2, 2])],
    };

    let err = v1_sum_request_from_canonical(canonical_request.clone()).unwrap_err();
    assert_eq!(
        err,
        CardinalityError {
            field: CanonicalField::Vectors,
            constraint: Cardinality::AtMostOne,
            actual: 2,
        }
    );
    assert_eq!(err.field.name(), "vectors");

    let narrowed = v2_sum_request_from_canonical(canonical_request).unwrap();
    assert_eq!(narrowed.vectors.len(), 2);
    assert_eq!(narrowed.vectors[0].id, "id1");
    assert_eq!(narrowed.vectors[1].id, "id2");
}

#[test]
fn v1_sum_response_requires_exactly_one_sum() {
    let empty = canonical::SumResponse { sum: vec![] };
    let err = v1_sum_response_from_canonical(empty).unwrap_err();
    assert_eq!(
        err,
        CardinalityError {
            field: CanonicalField::Sum,
            constraint: Cardinality::ExactlyOne,
            actual: 0,
        }
    );
    assert_eq!(err.field.name(), "sum");

    let two = canonical::SumResponse { sum: vec![1, 2] };
    let err = v1_sum_response_from_canonical(two).unwrap_err();
    assert_eq!(err.constraint, Cardinality::ExactlyOne);
    assert_eq!(err.actual, 2);
}

#[test]
fn compatibility_table_matches_declared_shapes() {
    assert_eq!(
        compatibility(Version::V1, Operation::Sum),
        Compatibility::StrictSubset
    );
    assert_eq!(
        compatibility(Version::V1, Operation::Print),
        Compatibility::Equal
    );
    assert_eq!(
        compatibility(Version::V2, Operation::Sum),
        Compatibility::Equal
    );
    assert_eq!(
        compatibility(Version::V2, Operation::Print),
        Compatibility::Equal
    );
}

use versioning_grpc::client::{client_decode_sum, client_encode_sum};
use versioning_grpc::error::CallError;
use versioning_grpc::error::CanonicalField;
use versioning_grpc::meta::Metadata;
use versioning_grpc::mux::{
    Multiplexer, VersionedPrintRequest, VersionedSumRequest, VersionedSumResponse,
};
use versioning_grpc::service::VectorHandler;
use versioning_grpc::shim::{serve_print_v1, serve_sum_v1, serve_sum_v2, CallEvent, Inbound};
use versioning_grpc::version::{Operation, Version};
use versioning_grpc::{canonical, v1, v2, Vector};

fn vector(id: &str, values: Vec<u32>) -> Vector {
    Vector {
        id: id.to_string(),
        values,
    }
}

fn handler() -> VectorHandler {
    VectorHandler {
        name: "my name".to_string(),
    }
}

fn empty_call<P>(payload: P) -> Inbound<P> {
    Inbound {
        metadata: Metadata::new(),
        payload,
    }
}

#[test]
fn sum_via_v1_yields_three() {
    let service = handler();
    let call = empty_call(v1::SumRequest {
        vector: Some(vector("id1", vec![1, 1, 1])),
    });
    let (out, _) = serve_sum_v1(&service, call);
    assert_eq!(out.result.unwrap(), v1::SumResponse { sum: 3 });
}

#[test]
fn sum_via_v2_yields_one_sum_per_vector() {
    let service = handler();
    let call = empty_call(v2::SumRequest {
        vectors: vec![vector("id1", vec![1, 1, 1]), vector("id2", vec![2, 2, 2])],
    });
    let (out, _) = serve_sum_v2(&service, call);
    assert_eq!(out.result.unwrap(), v2::SumResponse { sum: vec![3, 6] });
}

#[test]
fn print_via_v1_counts_vectors() {
    let service = handler();
    let (out, _) = serve_print_v1(
        &service,
        empty_call(v1::PrintRequest {
            vector: Some(vector("id1", vec![1, 2])),
        }),
    );
    assert_eq!(out.result.unwrap().printed_count, 1);

    let (out, _) = serve_print_v1(&service, empty_call(v1::PrintRequest { vector: None }));
    assert_eq!(out.result.unwrap().printed_count, 0);
}

#[test]
fn empty_v1_sum_request_is_unrepresentable_in_response() {
    // An absent vector embeds as zero canonical vectors, so the canonical
    // response holds zero sums, which V1's single-sum response cannot carry.
    let service = handler();
    let call = empty_call(v1::SumRequest { vector: None });
    let (out, event) = serve_sum_v1(&service, call);
    match out.result.unwrap_err() {
        CallError::Unrepresentable(e) => {
            assert_eq!(e.field, CanonicalField::Sum);
            assert_eq!(e.actual, 0);
        }
        other => panic!("expected an unrepresentable-response status, got {other:?}"),
    }
    assert!(!event.ok);
}

#[test]
fn sums_wrap_at_the_scalar_modulus() {
    let service = handler();
    let call = empty_call(v2::SumRequest {
        vectors: vec![vector("id1", vec![u32::MAX, 1]), vector("id2", vec![u32::MAX, 3])],
    });
    let (out, _) = serve_sum_v2(&service, call);
    assert_eq!(out.result.unwrap(), v2::SumResponse { sum: vec![0, 2] });
}

#[test]
fn interleaved_calls_are_isolated() {
    let service = handler();
    let mux = Multiplexer::new(service, vec![Version::V1, Version::V2]);
    let inputs: Vec<u32> = (0..8).collect();
    let mut results = Vec::new();
    for &n in &inputs {
        let call = if n % 2 == 0 {
            empty_call(VersionedSumRequest::V1(v1::SumRequest {
                vector: Some(vector("id1", vec![n, n, n])),
            }))
        } else {
            empty_call(VersionedSumRequest::V2(v2::SumRequest {
                vectors: vec![vector("id2", vec![n, n])],
            }))
        };
        let (out, _) = mux.dispatch_sum(call);
        results.push(out.result.unwrap());
    }
    for (i, &n) in inputs.iter().enumerate() {
        if n % 2 == 0 {
            assert_eq!(results[i], VersionedSumResponse::V1(v1::SumResponse { sum: 3 * n }));
        } else {
            assert_eq!(
                results[i],
                VersionedSumResponse::V2(v2::SumResponse { sum: vec![2 * n] })
            );
        }
    }
}

#[test]
fn registering_more_versions_leaves_existing_behavior_unchanged() {
    let narrow = Multiplexer::new(handler(), vec![Version::V1]);
    let wide = Multiplexer::new(handler(), vec![Version::V1, Version::V2]);
    let payload = VersionedSumRequest::V1(v1::SumRequest {
        vector: Some(vector("id1", vec![4, 5])),
    });
    let (from_narrow, _) = narrow.dispatch_sum(empty_call(payload.clone()));
    let (from_wide, _) = wide.dispatch_sum(empty_call(payload));
    assert_eq!(from_narrow.result.unwrap(), from_wide.result.unwrap());
}

#[test]
fn multiplexer_reports_registered_versions() {
    let mux = Multiplexer::new(handler(), vec![Version::V1]);
    assert!(mux.supports(Version::V1));
    assert!(!mux.supports(Version::V2));
}

#[test]
fn metadata_is_observable_and_echoed_unchanged() {
    let service = handler();
    let mut metadata = Metadata::new();
    metadata.insert("x-request-id".to_string(), "abc-123".to_string());
    let inbound = Inbound {
        metadata: metadata.clone(),
        payload: v1::SumRequest {
            vector: Some(vector("id1", vec![1])),
        },
    };
    let (out, _) = serve_sum_v1(&service, inbound);
    assert_eq!(out.metadata, metadata);
    let key = "x-request-id".to_string();
    assert_eq!(out.metadata.get(&key), Some(&"abc-123".to_string()));
}

#[test]
fn metadata_get_returns_first_match() {
    let mut metadata = Metadata::new();
    metadata.insert("k".to_string(), "first".to_string());
    metadata.insert("k".to_string(), "second".to_string());
    let key = "k".to_string();
    assert_eq!(metadata.get(&key), Some(&"first".to_string()));
    let missing = "absent".to_string();
    assert_eq!(metadata.get(&missing), None);
}

#[test]
fn call_events_describe_the_call() {
    let service = handler();
    let (_, event) = serve_print_v1(&service, empty_call(v1::PrintRequest { vector: None }));
    assert_eq!(
        event,
        CallEvent {
            version: Version::V1,
            operation: Operation::Print,
            ok: true,
        }
    );

    let mux = Multiplexer::new(handler(), vec![Version::V1, Version::V2]);
    let (_, event) = mux.dispatch_print(empty_call(VersionedPrintRequest::V2(
        v2::PrintRequest { vector: None },
    )));
    assert_eq!(event.version, Version::V2);
    assert_eq!(event.operation, Operation::Print);
    assert!(event.ok);
}

#[test]
fn client_path_matches_canonical_behavior() {
    let service = handler();
    let mux = Multiplexer::new(service, vec![Version::V1, Version::V2]);

    // One vector through V1.
    let request = canonical::SumRequest {
        vectors: vec![vector("id1", vec![1, 1, 1])],
    };
    let wire = client_encode_sum(Version::V1, request).unwrap();
    let (out, _) = mux.dispatch_sum(empty_call(wire));
    let decoded = client_decode_sum(out.result.unwrap());
    assert_eq!(decoded.sum, vec![3]);

    // Two vectors through V2.
    let request = canonical::SumRequest {
        vectors: vec![vector("id1", vec![1, 1, 1]), vector("id2", vec![2, 2, 2])],
    };
    let wire = client_encode_sum(Version::V2, request).unwrap();
    let (out, _) = mux.dispatch_sum(empty_call(wire));
    let decoded = client_decode_sum(out.result.unwrap());
    assert_eq!(decoded.sum, vec![3, 6]);
}

#[test]
fn client_rejects_requests_the_version_cannot_express() {
    let request = canonical::SumRequest {
        vectors: vec![vector("id1", vec![1]), vector("id2", vec![2])],
    };
    let err = client_encode_sum(Version::V1, request).unwrap_err();
    assert_eq!(err.field, CanonicalField::Vectors);
    assert_eq!(err.actual, 2);
}

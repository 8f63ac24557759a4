use axum::http::header::AUTHORIZATION;
use axum::http::{HeaderMap, HeaderValue};
use insight_v3_core::api::{ApiError, MAX_CONCURRENT_WRITES};
use insight_v3_core::auth::{complete, IngestAdmission, TokenVerifier};
use insight_v3_core::config::GearConfig;
use insight_v3_core::secret::Secret;

fn correct_verifier() -> TokenVerifier {
    TokenVerifier::new(&Secret::from_string("correct-token".to_owned()))
}

fn headers_with(values: &[&[u8]]) -> HeaderMap {
    let mut headers = HeaderMap::new();
    for value in values {
        headers.append(
            AUTHORIZATION,
            HeaderValue::from_bytes(value)
                .unwrap_or_else(|error| panic!("test header must be valid: {error}")),
        );
    }
    headers
}

#[test]
fn bearer_scheme_is_case_insensitive() {
    for scheme in ["Bearer", "bearer", "BEARER"] {
        let mut headers = HeaderMap::new();
        let value = HeaderValue::from_str(&format!("{scheme} correct-token"))
            .unwrap_or_else(|error| panic!("test header must be valid: {error}"));
        headers.insert(AUTHORIZATION, value);

        assert!(correct_verifier().authorizes(&headers), "scheme {scheme} must work");
    }
}

#[test]
fn malformed_or_wrong_authorization_is_rejected() {
    for value in [
        None,
        Some("Bearer"),
        Some("Bearer "),
        Some("Basic correct-token"),
        Some("Bearer wrong-token"),
        Some("Bearer correct-token extra"),
    ] {
        let mut headers = HeaderMap::new();
        if let Some(value) = value {
            headers.insert(
                AUTHORIZATION,
                HeaderValue::from_str(value)
                    .unwrap_or_else(|error| panic!("test header must be valid: {error}")),
            );
        }

        assert!(!correct_verifier().authorizes(&headers), "must reject: {value:?}");
    }
}

#[test]
fn duplicate_authorization_headers_are_rejected() {
    let mut headers = HeaderMap::new();
    headers.append(
        AUTHORIZATION,
        HeaderValue::from_static("Bearer correct-token"),
    );
    headers.append(
        AUTHORIZATION,
        HeaderValue::from_static("Bearer correct-token"),
    );

    assert!(!correct_verifier().authorizes(&headers));
}

#[test]
fn scheme_and_token_edge_cases() {
    // Mixed case scheme.
    assert!(correct_verifier().authorizes(&headers_with(&[b"bEaReR correct-token"])));
    // Two spaces: the token starts with a space and is refused.
    assert!(!correct_verifier().authorizes(&headers_with(&[b"Bearer  correct-token"])));
    // A tab is visible for the header but not a token byte.
    assert!(!correct_verifier().authorizes(&headers_with(&[b"Bearer correct-token\t"])));
    // Bytes outside visible ASCII fail the text conversion.
    assert!(!correct_verifier().authorizes(&headers_with(&[b"Bearer correct-t\xc3\xb6ken"])));
    // A longer scheme that starts with bearer.
    assert!(!correct_verifier().authorizes(&headers_with(&[b"Bearerx correct-token"])));
    // The token is compared exactly: a prefix is not enough.
    assert!(!correct_verifier().authorizes(&headers_with(&[b"Bearer correct-toke"])));
}

#[test]
fn token_over_the_wire_limit_is_refused() {
    let long = "x".repeat(1025);
    let verifier = TokenVerifier::new(&Secret::from_string(long.clone()));
    let value = format!("Bearer {long}");
    assert!(!verifier.authorizes(&headers_with(&[value.as_bytes()])));

    let boundary = "y".repeat(1024);
    let verifier = TokenVerifier::new(&Secret::from_string(boundary.clone()));
    let value = format!("Bearer {boundary}");
    assert!(verifier.authorizes(&headers_with(&[value.as_bytes()])));
}

#[test]
fn validated_token_authorizes_its_bearer_header() {
    let config = GearConfig {
        clickhouse_url: "http://clickhouse.example.test:8123".to_owned(),
        clickhouse_database: "insight".to_owned(),
        clickhouse_user: None,
        clickhouse_password: None,
        ingest_token: Secret::from_string("s3cr3t~token!".to_owned()),
    };
    let validated = config.validate().unwrap_or_else(|error| panic!("{}", error.message()));
    let verifier = TokenVerifier::new(validated.ingest_token());
    assert!(verifier.authorizes(&headers_with(&[b"BeArEr s3cr3t~token!"])));
    assert!(!verifier.authorizes(&headers_with(&[b"Bearer s3cr3t~token"])));
}

#[test]
fn unauthorized_request_is_answered_before_a_slot_is_taken() {
    let admission = IngestAdmission::new(correct_verifier());
    let rejected = admission
        .try_enter(&headers_with(&[b"Bearer wrong-token"]))
        .err()
        .unwrap_or_else(|| panic!("a wrong token must be refused"));
    assert_eq!(rejected.status, 401);
    assert!(rejected.www_authenticate_bearer);
    assert!(rejected.no_store);
    assert!(matches!(
        rejected.error,
        Some(ApiError::Unauthenticated { reason: "INVALID_INGEST_TOKEN" })
    ));
    assert_eq!(admission.write_slots().available_permits(), MAX_CONCURRENT_WRITES);
}

#[test]
fn full_write_slots_answer_too_many_requests() {
    let admission = IngestAdmission::new(correct_verifier());
    let permits: Vec<_> = (0..MAX_CONCURRENT_WRITES)
        .map(|_| {
            admission
                .try_enter(&headers_with(&[b"Bearer correct-token"]))
                .unwrap_or_else(|response| panic!("slot must be free: {}", response.status))
        })
        .collect();

    let unauthorized = admission.try_enter(&headers_with(&[b"Bearer wrong-token"]));
    let saturated = admission.try_enter(&headers_with(&[b"Bearer correct-token"]));

    assert!(matches!(unauthorized, Err(ref r) if r.status == 401 && r.no_store));
    let saturated = saturated.err().unwrap_or_else(|| panic!("the admission check must be full"));
    assert_eq!(saturated.status, 429);
    assert!(saturated.no_store);
    assert!(!saturated.www_authenticate_bearer);
    assert!(matches!(
        saturated.error,
        Some(ApiError::ResourceExhausted {
            message: "raw data ingestion is busy",
            quota_subject: "raw_data_writes",
            quota_description: "too many concurrent writes",
        })
    ));

    drop(permits);
    assert!(admission.try_enter(&headers_with(&[b"Bearer correct-token"])).is_ok());
}

#[test]
fn completed_responses_are_not_stored() {
    let response = complete(insight_v3_core::api::no_content_response());
    assert_eq!(response.status, 204);
    assert!(response.no_store);
    assert!(response.error.is_none());
}

#[test]
fn missing_write_slot_is_answered_too_many_requests() {
    let answer = insight_v3_core::auth::entry_outcome(None)
        .err()
        .unwrap_or_else(|| panic!("no permit must be refused"));
    assert_eq!(answer.status, 429);
    assert!(answer.no_store);
    assert!(!answer.www_authenticate_bearer);

    let slots = std::sync::Arc::new(tokio::sync::Semaphore::new(1));
    let permit = slots
        .clone()
        .try_acquire_owned()
        .unwrap_or_else(|error| panic!("slot must be free: {error}"));
    let entered = insight_v3_core::auth::entry_outcome(Some(permit));
    assert!(entered.is_ok());
    assert_eq!(slots.available_permits(), 0);
    drop(entered);
    assert_eq!(slots.available_permits(), 1);
}

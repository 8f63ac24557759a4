use axum::http::header::AUTHORIZATION;
use axum::http::{HeaderMap, HeaderValue};
use insight_v3_core::config::GearConfig;
use insight_v3_core::gear::{GearError, InsightV3CoreGear};
use insight_v3_core::raw_data::InsertTimeouts;
use insight_v3_core::secret::Secret;

fn validated() -> insight_v3_core::config::ValidatedConfig {
    GearConfig {
        clickhouse_url: "http://clickhouse.example.test:8123".to_owned(),
        clickhouse_database: "insight".to_owned(),
        clickhouse_user: None,
        clickhouse_password: None,
        ingest_token: Secret::from_string("gear-token".to_owned()),
    }
    .validate()
    .unwrap_or_else(|error| panic!("{}", error.message()))
}

#[test]
fn gear_is_set_up_once() {
    let mut gear = InsightV3CoreGear::default();
    assert!(!gear.is_initialized());
    assert!(matches!(gear.runtime(), Err(GearError::NotInitialized)));

    let config = validated();
    assert!(gear.init(&config, clickhouse::Client::default()).is_ok());
    assert!(gear.is_initialized());
    assert!(matches!(
        gear.init(&config, clickhouse::Client::default()),
        Err(GearError::AlreadyInitialized)
    ));

    let runtime = gear.runtime().unwrap_or_else(|error| panic!("{}", error.message()));
    let mut headers = HeaderMap::new();
    headers.insert(AUTHORIZATION, HeaderValue::from_static("Bearer gear-token"));
    assert!(runtime.admission.try_enter(&headers).is_ok());
    let timeouts = runtime.app.store().timeouts();
    let production = InsertTimeouts::production();
    assert_eq!(timeouts.total, production.total);
    assert_eq!(runtime.app.store().table(), "raw_data");
}

#[test]
fn gear_error_messages() {
    assert_eq!(
        GearError::AlreadyInitialized.message(),
        "insight-v3-core gear already initialized"
    );
    assert_eq!(GearError::NotInitialized.message(), "insight-v3-core gear not initialized");
}

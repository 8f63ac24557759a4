use insight_v3_core::config::{
    require_non_empty, validate_credentials, ConfigError, ConfigLoadError, GearConfig,
    IngestToken, ValidatedConfig, MAX_INGEST_TOKEN_BYTES,
};
use insight_v3_core::secret::Secret;

fn valid_config() -> GearConfig {
    GearConfig {
        clickhouse_url: "http://clickhouse.example.test:8123".to_owned(),
        clickhouse_database: "insight".to_owned(),
        clickhouse_user: None,
        clickhouse_password: None,
        ingest_token: Secret::from_string("test-ingest-token".to_owned()),
    }
}

#[test]
fn required_values_must_not_be_empty() {
    for field in ["clickhouse_url", "clickhouse_database", "ingest_token"] {
        let mut config = valid_config();
        match field {
            "clickhouse_url" => config.clickhouse_url.clear(),
            "clickhouse_database" => config.clickhouse_database.clear(),
            "ingest_token" => config.ingest_token = Secret::from_string(String::new()),
            _ => unreachable!(),
        }

        assert!(config.validate().is_err(), "empty {field} must be rejected");
    }
}

#[test]
fn secrets_are_redacted_from_debug_output() {
    let mut config = valid_config();
    config.clickhouse_user = Some("writer".to_owned());
    config.clickhouse_password = Some(Secret::from_string("database-secret".to_owned()));

    let rendered = format!("{config:?}");

    assert!(!rendered.contains("test-ingest-token"));
    assert!(!rendered.contains("database-secret"));
}

#[test]
fn credentials_must_be_complete() {
    let mut config = valid_config();
    config.clickhouse_user = Some("writer".to_owned());

    assert!(matches!(
        config.validate(),
        Err(ConfigError::IncompleteCredentials)
    ));
}

#[test]
fn ingest_token_must_be_usable_on_the_bearer_wire() {
    let invalid_tokens = [
        "token with space".to_owned(),
        "töken".to_owned(),
        "x".repeat(1025),
    ];

    for token in invalid_tokens {
        let mut config = valid_config();
        config.ingest_token = Secret::from_string(token);

        assert!(
            config.validate().is_err(),
            "configured token outside the Bearer wire contract must be rejected"
        );
    }
}

#[test]
fn ingest_token_accepts_the_wire_size_boundary() {
    let mut config = valid_config();
    config.ingest_token = Secret::from_string("x".repeat(MAX_INGEST_TOKEN_BYTES));

    assert!(config.validate().is_ok());
}

#[test]
fn each_required_field_is_named_in_its_error() {
    let mut config = valid_config();
    config.clickhouse_url = "   ".to_owned();
    assert!(matches!(config.validate(), Err(ConfigError::Empty("clickhouse_url"))));

    let mut config = valid_config();
    config.clickhouse_database = "\t\n".to_owned();
    assert!(matches!(config.validate(), Err(ConfigError::Empty("clickhouse_database"))));

    let mut config = valid_config();
    config.ingest_token = Secret::from_string("  ".to_owned());
    assert!(matches!(config.validate(), Err(ConfigError::Empty("ingest_token"))));
}

#[test]
fn blank_url_is_reported_before_a_bad_token() {
    let mut config = valid_config();
    config.clickhouse_url = String::new();
    config.ingest_token = Secret::from_string("x".repeat(2000));
    assert!(matches!(config.validate(), Err(ConfigError::Empty("clickhouse_url"))));
}

#[test]
fn token_errors_come_in_order() {
    assert!(matches!(
        IngestToken::parse(Secret::from_string("x".repeat(1025))),
        Err(ConfigError::IngestTokenTooLong)
    ));
    assert!(matches!(
        IngestToken::parse(Secret::from_string("a b".to_owned())),
        Err(ConfigError::InvalidIngestTokenCharacters)
    ));
    // A non-ASCII token of 1024 bytes or fewer fails on its characters.
    assert!(matches!(
        IngestToken::parse(Secret::from_string("ö".repeat(10))),
        Err(ConfigError::InvalidIngestTokenCharacters)
    ));
    // 600 two-byte characters are 1200 bytes: too long, counted in bytes.
    assert!(matches!(
        IngestToken::parse(Secret::from_string("ö".repeat(600))),
        Err(ConfigError::IngestTokenTooLong)
    ));
    let token = IngestToken::parse(Secret::from_string("abc~!".to_owned()));
    assert!(matches!(token, Ok(ref t) if t.as_secret().expose() == "abc~!"));
}

#[test]
fn credentials_must_not_be_blank() {
    let password = Secret::from_string("pw".to_owned());
    let empty = Secret::from_string(String::new());
    assert!(validate_credentials(None, None).is_ok());
    assert!(validate_credentials(Some("writer"), Some(&password)).is_ok());
    assert!(matches!(
        validate_credentials(Some("  "), Some(&password)),
        Err(ConfigError::EmptyCredentials)
    ));
    assert!(matches!(
        validate_credentials(Some("writer"), Some(&empty)),
        Err(ConfigError::EmptyCredentials)
    ));
    assert!(matches!(
        validate_credentials(None, Some(&password)),
        Err(ConfigError::IncompleteCredentials)
    ));
}

#[test]
fn require_non_empty_trims_unicode_whitespace() {
    assert!(matches!(require_non_empty("field", "\u{3000} \u{2003}"), Err(ConfigError::Empty("field"))));
    assert!(require_non_empty("field", " a ").is_ok());
}

#[test]
fn default_configuration_names_the_default_database() {
    let config = GearConfig::default();
    assert_eq!(config.clickhouse_url, "");
    assert_eq!(config.clickhouse_database, "insight");
    assert!(config.clickhouse_user.is_none());
    assert!(config.clickhouse_password.is_none());
    assert_eq!(config.ingest_token.expose(), "");
    assert!(matches!(config.validate(), Err(ConfigError::Empty("clickhouse_url"))));
}

#[test]
fn validated_configuration_keeps_its_values() {
    let mut config = valid_config();
    config.clickhouse_user = Some("writer".to_owned());
    config.clickhouse_password = Some(Secret::from_string("pw".to_owned()));
    let validated = config.validate().unwrap_or_else(|error| panic!("{}", error.message()));
    assert_eq!(validated.clickhouse_url(), "http://clickhouse.example.test:8123");
    assert_eq!(validated.clickhouse_database(), "insight");
    assert_eq!(validated.clickhouse_credentials(), Some(("writer", "pw")));
    assert_eq!(validated.ingest_token().expose(), "test-ingest-token");

    let validated = valid_config().validate().unwrap_or_else(|error| panic!("{}", error.message()));
    assert_eq!(validated.clickhouse_credentials(), None);
}

#[test]
fn configuration_section_is_loaded_in_order() {
    assert!(matches!(
        ValidatedConfig::from_config_section(None),
        Err(ConfigLoadError::MissingSection)
    ));
    let decode_error = serde_json::from_str::<u8>("not json").unwrap_err();
    assert!(matches!(
        ValidatedConfig::from_config_section(Some(Err(decode_error))),
        Err(ConfigLoadError::Decode(_))
    ));
    let mut config = valid_config();
    config.clickhouse_user = Some("writer".to_owned());
    assert!(matches!(
        ValidatedConfig::from_config_section(Some(Ok(config))),
        Err(ConfigLoadError::Invalid(ConfigError::IncompleteCredentials))
    ));
    assert!(ValidatedConfig::from_config_section(Some(Ok(valid_config()))).is_ok());
}

#[test]
fn config_error_messages() {
    assert_eq!(
        ConfigError::Empty("clickhouse_url").message(),
        "gears.insight-v3-core.config.clickhouse_url must not be empty"
    );
    assert_eq!(
        ConfigError::IncompleteCredentials.message(),
        "ClickHouse user and password must both be configured or both omitted"
    );
    assert_eq!(ConfigError::EmptyCredentials.message(), "ClickHouse credentials must not be empty");
    assert_eq!(ConfigError::IngestTokenTooLong.message(), "ingest_token must be at most 1024 bytes");
    assert_eq!(
        ConfigError::InvalidIngestTokenCharacters.message(),
        "ingest_token must contain only non-whitespace ASCII characters"
    );
}

#[test]
fn clickhouse_client_names_the_configured_database() {
    let validated = valid_config().validate().unwrap_or_else(|error| panic!("{}", error.message()));
    let client = validated.clickhouse_client();
    assert_eq!(client.database(), Some("insight"));

    let mut config = valid_config();
    config.clickhouse_user = Some("writer".to_owned());
    config.clickhouse_password = Some(Secret::from_string("pw".to_owned()));
    let validated = config.validate().unwrap_or_else(|error| panic!("{}", error.message()));
    assert_eq!(validated.clickhouse_client().database(), Some("insight"));
}

//! The gear's configuration: the ClickHouse endpoint, optional credentials
//! and the static ingestion token, and the checks that accept them.

use vstd::prelude::*;
use vstd::string::StringExecFns;
use vstd::string::StringSliceAdditionalSpecFns;

use crate::client::{client_database, client_password, client_url, client_user, configured_client};
use crate::secret::Secret;
use crate::text::{all_ascii_graphic, bytes_are_ascii_graphic, trim, trim_whitespace};

verus! {

/// The database used when the configuration names none.
pub const DEFAULT_CLICKHOUSE_DATABASE: &'static str = "insight";

/// The longest ingestion token, in bytes, that the service accepts, both in
/// its configuration and on the wire.
pub const MAX_INGEST_TOKEN_BYTES: usize = 1024;

/// The configuration section of the gear, as decoded.
#[derive(Debug)]
pub struct GearConfig {
    pub clickhouse_url: String,
    pub clickhouse_database: String,
    pub clickhouse_user: Option<String>,
    pub clickhouse_password: Option<Secret>,
    pub ingest_token: Secret,
}

impl Default for GearConfig {
    fn default() -> (config: Self)
        ensures
            config.clickhouse_url@.len() == 0,
            config.clickhouse_database@ == DEFAULT_CLICKHOUSE_DATABASE@,
            config.clickhouse_user is None,
            config.clickhouse_password is None,
            config.ingest_token@.len() == 0,
    {
        GearConfig {
            clickhouse_url: String::new(),
            clickhouse_database: DEFAULT_CLICKHOUSE_DATABASE.to_owned(),
            clickhouse_user: None,
            clickhouse_password: None,
            ingest_token: Secret::from_string(String::new()),
        }
    }
}

/// Why a configuration was refused.
#[derive(Debug)]
pub enum ConfigError {
    /// The named required value is empty or only whitespace.
    Empty(&'static str),
    /// Only one of the ClickHouse user and password is configured.
    IncompleteCredentials,
    /// The ClickHouse user is blank or the password is empty.
    EmptyCredentials,
    /// The ingestion token is longer than [`MAX_INGEST_TOKEN_BYTES`].
    IngestTokenTooLong,
    /// The ingestion token holds a byte that is not visible, non-space ASCII.
    InvalidIngestTokenCharacters,
}

/// Why the configuration section could not be loaded.
#[derive(Debug)]
pub enum ConfigLoadError {
    /// The host configuration has no section for this gear.
    MissingSection,
    /// The section is not a valid configuration document.
    Decode(serde_json::Error),
    /// The section decoded, but its values were refused.
    Invalid(ConfigError),
}

/// A text that is empty once trimmed.
pub open spec fn is_blank(s: Seq<char>) -> bool {
    trim_whitespace(s).len() == 0
}

/// An optional text by its characters.
pub open spec fn opt_text(s: Option<String>) -> Option<Seq<char>> {
    match s {
        Some(s) => Some(s@),
        None => None,
    }
}

/// An optional secret by its characters.
pub open spec fn opt_secret(s: Option<Secret>) -> Option<Seq<char>> {
    match s {
        Some(s) => Some(s@),
        None => None,
    }
}

/// The error, if any, for an ingestion token, in the order of the checks:
/// blank, then longer than the wire limit, then a byte outside visible
/// non-space ASCII.
pub open spec fn ingest_token_error(token: Seq<char>) -> Option<ConfigError> {
    if is_blank(token) {
        Some(ConfigError::Empty("ingest_token"))
    } else if vstd::utf8::encode_utf8(token).len() > MAX_INGEST_TOKEN_BYTES {
        Some(ConfigError::IngestTokenTooLong)
    } else if !all_ascii_graphic(vstd::utf8::encode_utf8(token)) {
        Some(ConfigError::InvalidIngestTokenCharacters)
    } else {
        None
    }
}

/// The error, if any, for the optional ClickHouse credentials: both or
/// neither must be given, with a non-blank user and a non-empty password.
pub open spec fn credentials_error(user: Option<Seq<char>>, password: Option<Seq<char>>) -> Option<
    ConfigError,
> {
    match (user, password) {
        (None, None) => None,
        (Some(u), Some(p)) => if !is_blank(u) && p.len() > 0 {
            None
        } else {
            Some(ConfigError::EmptyCredentials)
        },
        _ => Some(ConfigError::IncompleteCredentials),
    }
}

/// The error, if any, for a whole configuration, checked in order: URL,
/// database, ingestion token, credentials.
pub open spec fn gear_config_error(
    url: Seq<char>,
    database: Seq<char>,
    user: Option<Seq<char>>,
    password: Option<Seq<char>>,
    token: Seq<char>,
) -> Option<ConfigError> {
    if is_blank(url) {
        Some(ConfigError::Empty("clickhouse_url"))
    } else if is_blank(database) {
        Some(ConfigError::Empty("clickhouse_database"))
    } else if ingest_token_error(token) is Some {
        ingest_token_error(token)
    } else {
        credentials_error(user, password)
    }
}

impl GearConfig {
    /// The configuration error of this configuration, if any.
    pub open spec fn error(&self) -> Option<ConfigError> {
        gear_config_error(
            self.clickhouse_url@,
            self.clickhouse_database@,
            opt_text(self.clickhouse_user),
            opt_secret(self.clickhouse_password),
            self.ingest_token@,
        )
    }

    /// Checks every value and keeps them all in a [`ValidatedConfig`].
    pub fn validate(self) -> (validated: Result<ValidatedConfig, ConfigError>)
        ensures
            validated is Ok <==> self.error() is None,
            validated matches Err(e) ==> self.error() == Some(e),
            validated matches Ok(v) ==> v@ == (ConfigView {
                url: self.clickhouse_url@,
                database: self.clickhouse_database@,
                user: opt_text(self.clickhouse_user),
                password: opt_secret(self.clickhouse_password),
                ingest_token: self.ingest_token@,
            }),
    {
        require_non_empty("clickhouse_url", self.clickhouse_url.as_str())?;
        require_non_empty("clickhouse_database", self.clickhouse_database.as_str())?;
        let ingest_token = IngestToken::parse(self.ingest_token)?;
        let user = match &self.clickhouse_user {
            Some(u) => Some(u.as_str()),
            None => None,
        };
        let password = match &self.clickhouse_password {
            Some(p) => Some(p),
            None => None,
        };
        validate_credentials(user, password)?;
        Ok(ValidatedConfig {
            clickhouse_url: self.clickhouse_url,
            clickhouse_database: self.clickhouse_database,
            clickhouse_user: self.clickhouse_user,
            clickhouse_password: self.clickhouse_password,
            ingest_token,
        })
    }
}

/// What a validated configuration holds, by its characters.
pub struct ConfigView {
    pub url: Seq<char>,
    pub database: Seq<char>,
    pub user: Option<Seq<char>>,
    pub password: Option<Seq<char>>,
    pub ingest_token: Seq<char>,
}

/// A configuration whose values all passed [`GearConfig::validate`].
#[derive(Debug)]
pub struct ValidatedConfig {
    clickhouse_url: String,
    clickhouse_database: String,
    clickhouse_user: Option<String>,
    clickhouse_password: Option<Secret>,
    ingest_token: IngestToken,
}

impl View for ValidatedConfig {
    type V = ConfigView;

    closed spec fn view(&self) -> ConfigView {
        ConfigView {
            url: self.clickhouse_url@,
            database: self.clickhouse_database@,
            user: opt_text(self.clickhouse_user),
            password: opt_secret(self.clickhouse_password),
            ingest_token: self.ingest_token@,
        }
    }
}

impl ValidatedConfig {
    #[verifier::type_invariant]
    closed spec fn well_formed(self) -> bool {
        gear_config_error(
            self.clickhouse_url@,
            self.clickhouse_database@,
            opt_text(self.clickhouse_user),
            opt_secret(self.clickhouse_password),
            self.ingest_token@,
        ) is None
    }

    /// Loads the gear's section: missing, undecodable or refused, in that
    /// order, else the validated configuration.
    pub fn from_config_section(section: Option<Result<GearConfig, serde_json::Error>>) -> (loaded:
        Result<ValidatedConfig, ConfigLoadError>)
        ensures
            section is None ==> loaded matches Err(ConfigLoadError::MissingSection),
            section matches Some(Err(d)) ==> (loaded matches Err(ConfigLoadError::Decode(e)) && e
                == d),
            section matches Some(Ok(c)) ==> match c.error() {
                Some(e) => loaded matches Err(ConfigLoadError::Invalid(e2)) && e2 == e,
                None => loaded matches Ok(v) && v@ == (ConfigView {
                    url: c.clickhouse_url@,
                    database: c.clickhouse_database@,
                    user: opt_text(c.clickhouse_user),
                    password: opt_secret(c.clickhouse_password),
                    ingest_token: c.ingest_token@,
                }),
            },
    {
        match section {
            None => Err(ConfigLoadError::MissingSection),
            Some(Err(error)) => Err(ConfigLoadError::Decode(error)),
            Some(Ok(config)) => match config.validate() {
                Ok(validated) => Ok(validated),
                Err(error) => Err(ConfigLoadError::Invalid(error)),
            },
        }
    }

    /// The ClickHouse URL.
    pub fn clickhouse_url(&self) -> (url: &str)
        ensures
            url@ == self@.url,
    {
        self.clickhouse_url.as_str()
    }

    /// The ClickHouse database.
    pub fn clickhouse_database(&self) -> (database: &str)
        ensures
            database@ == self@.database,
    {
        self.clickhouse_database.as_str()
    }

    /// The user and password to authenticate with, when both are configured.
    pub fn clickhouse_credentials(&self) -> (credentials: Option<(&str, &str)>)
        ensures
            match (self@.user, self@.password) {
                (Some(u), Some(p)) => credentials matches Some((cu, cp)) && cu@ == u && cp@ == p,
                _ => credentials is None,
            },
    {
        match (&self.clickhouse_user, &self.clickhouse_password) {
            (Some(user), Some(password)) => Some((user.as_str(), password.expose())),
            _ => None,
        }
    }

    /// The ClickHouse client for the configured URL and database,
    /// authenticated with the credentials when both are configured.
    pub fn clickhouse_client(&self) -> (client: clickhouse::Client)
        ensures
            client_url(client) == self@.url,
            client_database(client) == Some(self@.database),
            match (self@.user, self@.password) {
                (Some(u), Some(p)) => client_user(client) == Some(u) && client_password(client)
                    == Some(p),
                _ => client_user(client) is None && client_password(client) is None,
            },
    {
        configured_client(
            self.clickhouse_url(),
            self.clickhouse_database(),
            self.clickhouse_credentials(),
        )
    }

    /// The validated ingestion token.
    pub fn ingest_token(&self) -> (token: &Secret)
        ensures
            token@ == self@.ingest_token,
            ingest_token_error(token@) is None,
    {
        proof {
            use_type_invariant(self);
        }
        self.ingest_token.as_secret()
    }
}

/// An ingestion token that passed [`IngestToken::parse`].
#[derive(Debug)]
pub struct IngestToken(Secret);

impl View for IngestToken {
    type V = Seq<char>;

    closed spec fn view(&self) -> Seq<char> {
        self.0@
    }
}

impl IngestToken {
    /// Accepts a token that is not blank, fits the wire limit and holds only
    /// visible, non-space ASCII.
    pub fn parse(value: Secret) -> (token: Result<IngestToken, ConfigError>)
        ensures
            token is Ok <==> ingest_token_error(value@) is None,
            token matches Err(e) ==> ingest_token_error(value@) == Some(e),
            token matches Ok(t) ==> t@ == value@,
    {
        let exposed = value.expose();
        require_non_empty("ingest_token", exposed)?;
        let bytes = exposed.as_bytes();
        if bytes.len() > MAX_INGEST_TOKEN_BYTES {
            return Err(ConfigError::IngestTokenTooLong);
        }
        if !bytes_are_ascii_graphic(bytes) {
            return Err(ConfigError::InvalidIngestTokenCharacters);
        }
        Ok(IngestToken(value))
    }

    /// The secret that holds the token.
    pub fn as_secret(&self) -> (secret: &Secret)
        ensures
            secret@ == self@,
    {
        &self.0
    }
}

/// Refuses a value that is empty once trimmed, naming the field.
pub fn require_non_empty(field: &'static str, value: &str) -> (checked: Result<(), ConfigError>)
    ensures
        checked is Err <==> is_blank(value@),
        checked matches Err(e) ==> e == ConfigError::Empty(field),
{
    if trim(value).is_empty() {
        return Err(ConfigError::Empty(field));
    }
    Ok(())
}

/// Accepts both credentials or neither; given both, the user must not be
/// blank and the password must not be empty.
pub fn validate_credentials(user: Option<&str>, password: Option<&Secret>) -> (checked: Result<
    (),
    ConfigError,
>)
    ensures
        ({
            let u = match user {
                Some(u) => Some(u@),
                None => None,
            };
            let p = match password {
                Some(p) => Some(p@),
                None => None,
            };
            &&& checked is Ok <==> credentials_error(u, p) is None
            &&& checked matches Err(e) ==> credentials_error(u, p) == Some(e)
        }),
{
    match (user, password) {
        (None, None) => Ok(()),
        (Some(user), Some(password)) => {
            if !trim(user).is_empty() && !password.expose().is_empty() {
                Ok(())
            } else {
                Err(ConfigError::EmptyCredentials)
            }
        },
        _ => Err(ConfigError::IncompleteCredentials),
    }
}

impl ConfigError {
    /// The message that explains the error.
    pub fn message(&self) -> (text: String)
        ensures
            match self {
                ConfigError::Empty(field) => text@ == "gears.insight-v3-core.config."@ + field@
                    + " must not be empty"@,
                ConfigError::IncompleteCredentials => text@
                    == "ClickHouse user and password must both be configured or both omitted"@,
                ConfigError::EmptyCredentials => text@ == "ClickHouse credentials must not be empty"@,
                ConfigError::IngestTokenTooLong => text@ == "ingest_token must be at most 1024 bytes"@,
                ConfigError::InvalidIngestTokenCharacters => text@
                    == "ingest_token must contain only non-whitespace ASCII characters"@,
            },
    {
        match self {
            ConfigError::Empty(field) => {
                let mut text = String::from_str("gears.insight-v3-core.config.");
                text.append(field);
                text.append(" must not be empty");
                text
            },
            ConfigError::IncompleteCredentials => String::from_str(
                "ClickHouse user and password must both be configured or both omitted",
            ),
            ConfigError::EmptyCredentials => String::from_str(
                "ClickHouse credentials must not be empty",
            ),
            ConfigError::IngestTokenTooLong => String::from_str(
                "ingest_token must be at most 1024 bytes",
            ),
            ConfigError::InvalidIngestTokenCharacters => String::from_str(
                "ingest_token must contain only non-whitespace ASCII characters",
            ),
        }
    }
}

/// An accepted configuration has a non-blank URL and database, a token of 1
/// to 1024 visible non-space ASCII bytes, and either both credentials, with
/// a non-blank user and a non-empty password, or neither.
pub proof fn lemma_accepted_configuration(
    url: Seq<char>,
    database: Seq<char>,
    user: Option<Seq<char>>,
    password: Option<Seq<char>>,
    token: Seq<char>,
)
    requires
        gear_config_error(url, database, user, password, token) is None,
    ensures
        trim_whitespace(url).len() > 0,
        trim_whitespace(database).len() > 0,
        0 < vstd::utf8::encode_utf8(token).len() <= 1024,
        forall|i: int|
            0 <= i < vstd::utf8::encode_utf8(token).len() ==> 0x21 <= #[trigger] vstd::utf8::encode_utf8(
                token,
            )[i] <= 0x7e,
        user is None <==> password is None,
        user matches Some(u) ==> trim_whitespace(u).len() > 0,
        password matches Some(p) ==> p.len() > 0,
{
    if token.len() == 0 {
        assert(crate::text::leading_whitespace(token) == 0);
    }
    assert(vstd::utf8::encode_utf8(token) == vstd::utf8::encode_scalar(token[0] as u32)
        + vstd::utf8::encode_utf8(token.drop_first()));
}

/// Once the URL, database and token pass, a user without a password, or a
/// password without a user, is refused as incomplete credentials.
pub proof fn lemma_lone_credential_is_incomplete(
    url: Seq<char>,
    database: Seq<char>,
    user: Option<Seq<char>>,
    password: Option<Seq<char>>,
    token: Seq<char>,
)
    requires
        trim_whitespace(url).len() > 0,
        trim_whitespace(database).len() > 0,
        ingest_token_error(token) is None,
        (user is None) != (password is None),
    ensures
        gear_config_error(url, database, user, password, token) == Some(
            ConfigError::IncompleteCredentials,
        ),
{
}

} // verus!

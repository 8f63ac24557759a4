//! The ClickHouse client that the store writes through, configured from the
//! validated configuration.

use vstd::prelude::*;

verus! {

/// The URL that a client sends its requests to.
pub uninterp spec fn client_url(client: clickhouse::Client) -> Seq<char>;

/// The database that a client names in its requests, if any.
pub uninterp spec fn client_database(client: clickhouse::Client) -> Option<Seq<char>>;

/// The user that a client authenticates as, if any.
pub uninterp spec fn client_user(client: clickhouse::Client) -> Option<Seq<char>>;

/// The password that a client authenticates with, if any.
pub uninterp spec fn client_password(client: clickhouse::Client) -> Option<Seq<char>>;

/// Whether a client authenticates with a JWT access token rather than with
/// a user and password.
pub uninterp spec fn client_uses_access_token(client: clickhouse::Client) -> bool;

/// Calls `clickhouse::Client::default`: an empty URL, no database, and
/// user-and-password authentication with neither set.
#[verifier::external_body]
fn default_client() -> (client: clickhouse::Client)
    ensures
        client_url(client) == Seq::<char>::empty(),
        client_database(client) is None,
        client_user(client) is None,
        client_password(client) is None,
        !client_uses_access_token(client),
{
    clickhouse::Client::default()
}

/// Calls `Client::with_url`: the client now sends to `url`. A `database`
/// query parameter in the URL also sets the database, so what becomes of
/// the database is not stated; the authentication is kept.
#[verifier::external_body]
fn client_with_url(client: clickhouse::Client, url: &str) -> (configured: clickhouse::Client)
    ensures
        client_url(configured) == url@,
        client_user(configured) == client_user(client),
        client_password(configured) == client_password(client),
        client_uses_access_token(configured) == client_uses_access_token(client),
{
    client.with_url(url)
}

/// Calls `Client::with_database`: the client now names `database`; the URL
/// and the authentication are kept.
#[verifier::external_body]
fn client_with_database(client: clickhouse::Client, database: &str) -> (configured:
    clickhouse::Client)
    ensures
        client_database(configured) == Some(database@),
        client_url(configured) == client_url(client),
        client_user(configured) == client_user(client),
        client_password(configured) == client_password(client),
        client_uses_access_token(configured) == client_uses_access_token(client),
{
    client.with_database(database)
}

/// Calls `Client::with_user`: the client now authenticates as `user`, with
/// its password kept. It panics on a client set up with an access token,
/// which `requires` rules out.
#[verifier::external_body]
fn client_with_user(client: clickhouse::Client, user: &str) -> (configured: clickhouse::Client)
    requires
        !client_uses_access_token(client),
    ensures
        client_user(configured) == Some(user@),
        client_password(configured) == client_password(client),
        client_url(configured) == client_url(client),
        client_database(configured) == client_database(client),
        !client_uses_access_token(configured),
{
    client.with_user(user)
}

/// Calls `Client::with_password`: the client now authenticates with
/// `password`, with its user kept. It panics on a client set up with an
/// access token, which `requires` rules out.
#[verifier::external_body]
fn client_with_password(client: clickhouse::Client, password: &str) -> (configured:
    clickhouse::Client)
    requires
        !client_uses_access_token(client),
    ensures
        client_password(configured) == Some(password@),
        client_user(configured) == client_user(client),
        client_url(configured) == client_url(client),
        client_database(configured) == client_database(client),
        !client_uses_access_token(configured),
{
    client.with_password(password)
}

/// A client for `url` and `database`, authenticated with `credentials`
/// when they are given and with neither user nor password otherwise.
pub fn configured_client(url: &str, database: &str, credentials: Option<(&str, &str)>) -> (client:
    clickhouse::Client)
    ensures
        client_url(client) == url@,
        client_database(client) == Some(database@),
        match credentials {
            Some((user, password)) => client_user(client) == Some(user@) && client_password(client)
                == Some(password@),
            None => client_user(client) is None && client_password(client) is None,
        },
{
    let client = client_with_database(client_with_url(default_client(), url), database);
    match credentials {
        Some((user, password)) => client_with_password(client_with_user(client, user), password),
        None => client,
    }
}

} // verus!

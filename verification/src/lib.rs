//! Raw JSON ingestion core: configuration validation, Bearer token checks,
//! record preparation and the HTTP outcomes of the ingestion route.
//!
//! - [`config`]: the gear's configuration and the checks that accept it.
//! - [`auth`]: the Bearer token check and the bound on writes in flight.
//! - [`raw_data`]: logical table labels, records and the row they become.
//! - [`api`]: the errors and responses of the ingestion route.
//! - [`gear`]: the runtime state, set up once.
//! - [`client`]: the ClickHouse client built from the configuration.
//! - [`secret`], [`headers`], [`json`], [`digest`], [`text`]: the values
//!   that the logic reads from `secrecy`, `http`, `serde_json`, `sha2`,
//!   `subtle` and `std`.

pub mod api;
pub mod auth;
pub mod client;
pub mod config;
pub mod digest;
pub mod gear;
pub mod headers;
pub mod json;
pub mod raw_data;
pub mod secret;
pub mod text;

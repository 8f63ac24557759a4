# insight_v3_core

The core of the insight-v3-core service, which accepts token-authenticated
raw JSON (`POST /v1/raw-data`) and stores it in the fixed ClickHouse table
`raw_data`.

- `src/` is the library, written in Verus: configuration validation, the
  Bearer token check and the bound on writes in flight, logical table labels
  and records, the errors and responses of the route, and the gear's
  set-up-once state, and the ClickHouse client's configuration. Calls into
  `secrecy`, `http`, `serde_json`, `sha2`, `subtle`, `tokio`, `clickhouse`,
  `uuid`, `chrono` and `std` stand behind trusted items
  whose contracts are stated in their doc comments.
- `app/` is the program around it: the command line (`run`, `migrate`), the
  YAML configuration with `APP__` environment overrides, the axum router and
  middleware, and the ClickHouse insert and migration.
- `tests/` exercises the library.

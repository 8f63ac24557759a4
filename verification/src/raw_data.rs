//! Raw data records: the logical table label, the stored JSON text, and the
//! row that is written to the fixed `raw_data` table.

use vstd::prelude::*;
use vstd::std_specs::iter::IteratorSpec;
use vstd::string::StringExecFns;

use crate::json::{json_text, json_to_string};
use crate::text::{trim, trim_whitespace};

verus! {

/// The one physical table that every record is written to.
pub const RAW_DATA_TABLE: &'static str = "raw_data";

/// Seconds allowed for sending an insert.
pub const INSERT_SEND_TIMEOUT_SECS: u64 = 10;

/// Seconds allowed for finishing an insert.
pub const INSERT_END_TIMEOUT_SECS: u64 = 30;

/// Seconds allowed for the whole insert.
pub const INSERT_TOTAL_TIMEOUT_SECS: u64 = 35;

/// The longest logical table label, in characters, after trimming.
pub const MAX_TABLE_NAME_CHARS: usize = 128;

/// Declares `clickhouse::Client`, the handle that inserts are made through.
#[verifier::external_type_specification]
#[verifier::external_body]
pub struct ExClickhouseClient(clickhouse::Client);

/// Declares `clickhouse::error::Error`, the error of a ClickHouse request.
#[verifier::external_type_specification]
#[verifier::external_body]
pub struct ExClickhouseError(clickhouse::error::Error);

/// Declares `uuid::Uuid`, the identifier of a stored row.
#[verifier::external_type_specification]
#[verifier::external_body]
pub struct ExUuid(uuid::Uuid);

/// The whole seconds of a duration, as `Duration::as_secs` reads them.
pub uninterp spec fn whole_seconds(duration: std::time::Duration) -> u64;

/// The nanoseconds of a duration beyond its whole seconds, as
/// `Duration::subsec_nanos` reads them.
pub uninterp spec fn subsec_nanos(duration: std::time::Duration) -> u32;

/// Calls `Duration::from_secs`: exactly `secs` seconds, with no nanoseconds.
#[verifier::external_body]
fn duration_from_secs(secs: u64) -> (duration: std::time::Duration)
    ensures
        whole_seconds(duration) == secs,
        subsec_nanos(duration) == 0,
{
    std::time::Duration::from_secs(secs)
}

/// The 16 bytes of an identifier, as `Uuid::as_bytes` gives them.
pub uninterp spec fn uuid_bytes(id: uuid::Uuid) -> Seq<u8>;

/// A version 7 identifier of the RFC 9562 variant: the high nibble of byte 6
/// is 7 and the two high bits of byte 8 are `10`.
pub open spec fn is_v7_id(id: uuid::Uuid) -> bool {
    &&& uuid_bytes(id).len() == 16
    &&& uuid_bytes(id)[6] / 16 == 7
    &&& uuid_bytes(id)[8] / 64 == 2
}

/// The nil identifier: all 16 bytes zero.
pub open spec fn is_nil_id(id: uuid::Uuid) -> bool {
    forall|i: int| 0 <= i < uuid_bytes(id).len() ==> #[trigger] uuid_bytes(id)[i] == 0
}

/// Calls `uuid::Uuid::now_v7`: a fresh identifier whose version is 7 and
/// whose variant is RFC 9562; its timestamp and random bits depend on the
/// clock and on chance and are not stated.
#[verifier::external_body]
fn new_row_id() -> (id: uuid::Uuid)
    ensures
        uuid_bytes(id).len() == 16,
        is_v7_id(id),
{
    uuid::Uuid::now_v7()
}

/// Calls `chrono::Utc::now` and `DateTime::timestamp_millis`: the current
/// time in milliseconds since the Unix epoch. `Utc::now` panics when the
/// system clock reads before the epoch, so a returned time is never
/// negative; what it is depends on the clock and is not stated.
#[verifier::external_body]
fn now_unix_millis() -> (millis: i64)
    ensures
        millis >= 0,
{
    chrono::Utc::now().timestamp_millis()
}

/// Why a request could not become a record.
#[derive(Debug)]
pub enum RawDataError {
    /// The label is empty once trimmed.
    EmptyTableName,
    /// The trimmed label is longer than [`MAX_TABLE_NAME_CHARS`].
    TableNameTooLong,
    /// The JSON value could not be written out as text.
    Serialization(serde_json::Error),
}

impl RawDataError {
    /// The message that explains the error.
    pub fn message(&self) -> (text: String)
        ensures
            match self {
                RawDataError::EmptyTableName => text@ == "table must not be blank"@,
                RawDataError::TableNameTooLong => text@ == "table must be at most 128 characters"@,
                RawDataError::Serialization(_) => text@ == "raw_data could not be serialized"@,
            },
    {
        match self {
            RawDataError::EmptyTableName => String::from_str("table must not be blank"),
            RawDataError::TableNameTooLong => String::from_str(
                "table must be at most 128 characters",
            ),
            RawDataError::Serialization(_) => String::from_str("raw_data could not be serialized"),
        }
    }
}

/// Why an insert failed.
#[derive(Debug)]
pub enum StoreError {
    /// ClickHouse refused or failed the request.
    ClickHouse(clickhouse::error::Error),
    /// The insert did not finish in time.
    Timeout,
}

/// The error, if any, for a logical table label, by its trimmed text.
pub open spec fn table_name_error(label: Seq<char>) -> Option<RawDataError> {
    let trimmed = trim_whitespace(label);
    if trimmed.len() == 0 {
        Some(RawDataError::EmptyTableName)
    } else if trimmed.len() > MAX_TABLE_NAME_CHARS {
        Some(RawDataError::TableNameTooLong)
    } else {
        None
    }
}

/// A logical table label: trimmed, not empty, at most
/// [`MAX_TABLE_NAME_CHARS`] characters.
#[derive(Debug)]
pub struct TableName(String);

impl View for TableName {
    type V = Seq<char>;

    closed spec fn view(&self) -> Seq<char> {
        self.0@
    }
}

/// Whether `s` holds more than `limit` characters, counted one by one and
/// no further than one past the limit.
fn has_more_chars_than(s: &str, limit: usize) -> (more: bool)
    requires
        limit < usize::MAX,
    ensures
        more == (s@.len() > limit),
{
    broadcast use vstd::string::group_string_axioms, vstd::string::next_postcondition;

    let mut chars = s.chars();
    let mut count: usize = 0;
    loop
        invariant
            count <= limit,
            count <= s@.len(),
            chars.remaining() == s@.skip(count as int),
            chars.obeys_prophetic_iter_laws(),
        decreases s@.len() - count,
    {
        proof {
            if count < s@.len() {
                assert(s@.skip(count as int).drop_first() =~= s@.skip(count + 1));
            }
        }
        let next = chars.next();
        match next {
            Some(_) => {
                if count == limit {
                    return true;
                }
                count = count + 1;
            },
            None => {
                return false;
            },
        }
    }
}

/// A label that is accepted is accepted again once trimmed, and trimming it
/// again gives the same text: a parsed name parses to itself.
pub proof fn lemma_parsed_name_parses_to_itself(label: Seq<char>)
    requires
        table_name_error(label) is None,
    ensures
        table_name_error(trim_whitespace(label)) is None,
        trim_whitespace(trim_whitespace(label)) == trim_whitespace(label),
{
    crate::text::lemma_trim_is_idempotent(label);
}

impl TableName {
    /// Trims the label and accepts it when it is not empty and not longer
    /// than [`MAX_TABLE_NAME_CHARS`] characters.
    pub fn parse(value: &str) -> (name: Result<TableName, RawDataError>)
        ensures
            name is Ok <==> table_name_error(value@) is None,
            name matches Err(e) ==> table_name_error(value@) == Some(e),
            name matches Ok(n) ==> n@ == trim_whitespace(value@),
    {
        let value = trim(value);
        if value.is_empty() {
            return Err(RawDataError::EmptyTableName);
        }
        if has_more_chars_than(value, MAX_TABLE_NAME_CHARS) {
            return Err(RawDataError::TableNameTooLong);
        }
        Ok(TableName(value.to_owned()))
    }

    /// The label.
    pub fn as_str(&self) -> (text: &str)
        ensures
            text@ == self@,
    {
        self.0.as_str()
    }

    /// The label, as an owned string.
    pub fn into_string(self) -> (text: String)
        ensures
            text@ == self@,
    {
        self.0
    }
}

/// The body of an ingestion request: a logical table label and any JSON
/// value.
#[derive(Debug)]
pub struct RawDataRequest {
    pub table: String,
    pub raw_data: serde_json::Value,
}

/// A request that passed its checks: the trimmed label and the JSON text.
#[derive(Debug)]
pub struct RawDataRecord {
    table_name: TableName,
    raw_data: String,
}

/// A record by its label and its JSON text.
pub struct RecordView {
    pub table_name: Seq<char>,
    pub raw_data: Seq<char>,
}

impl View for RawDataRecord {
    type V = RecordView;

    closed spec fn view(&self) -> RecordView {
        RecordView { table_name: self.table_name@, raw_data: self.raw_data@ }
    }
}

/// One row of the `raw_data` table.
#[derive(Debug)]
pub struct RawDataRow {
    pub id: uuid::Uuid,
    pub table_name: String,
    pub raw_data: String,
    /// Milliseconds since the Unix epoch at which the row was made.
    pub received_at_millis: i64,
}

impl RawDataRecord {
    /// Checks the label, then writes the JSON value out as compact text.
    pub fn parse(table_name: &str, raw_data: &serde_json::Value) -> (record: Result<
        RawDataRecord,
        RawDataError,
    >)
        ensures
            table_name_error(table_name@) matches Some(e) ==> record matches Err(e2) && e2 == e,
            table_name_error(table_name@) is None ==> (record matches Ok(r) && r@.table_name
                == trim_whitespace(table_name@) && r@.raw_data == json_text(*raw_data)),
    {
        let table_name = TableName::parse(table_name)?;
        let raw_data = match json_to_string(raw_data) {
            Ok(text) => text,
            Err(error) => return Err(RawDataError::Serialization(error)),
        };
        Ok(RawDataRecord { table_name, raw_data })
    }

    /// The logical table label.
    pub fn table_name(&self) -> (text: &str)
        ensures
            text@ == self@.table_name,
    {
        self.table_name.as_str()
    }

    /// The JSON text.
    pub fn raw_data(&self) -> (text: &str)
        ensures
            text@ == self@.raw_data,
    {
        self.raw_data.as_str()
    }

    /// The row to insert with the given identifier and reception time.
    pub fn into_row_at(self, id: uuid::Uuid, received_at_millis: i64) -> (row: RawDataRow)
        ensures
            row.id == id,
            row.table_name@ == self@.table_name,
            row.raw_data@ == self@.raw_data,
            row.received_at_millis == received_at_millis,
    {
        RawDataRow {
            id,
            table_name: self.table_name.into_string(),
            raw_data: self.raw_data,
            received_at_millis,
        }
    }

    /// The row to insert: the label and the JSON text, with a fresh version
    /// 7 identifier, which is never nil, and the current time, which is not
    /// before the Unix epoch.
    pub fn into_row(self) -> (row: RawDataRow)
        ensures
            row.table_name@ == self@.table_name,
            row.raw_data@ == self@.raw_data,
            is_v7_id(row.id),
            !is_nil_id(row.id),
            row.received_at_millis >= 0,
    {
        let id = new_row_id();
        let received_at_millis = now_unix_millis();
        let row = self.into_row_at(id, received_at_millis);
        proof {
            lemma_v7_id_is_not_nil(row.id);
        }
        row
    }
}

/// A version 7 identifier is never nil: its version nibble is not zero.
pub proof fn lemma_v7_id_is_not_nil(id: uuid::Uuid)
    requires
        is_v7_id(id),
    ensures
        !is_nil_id(id),
{
    assert(uuid_bytes(id)[6] != 0);
}

/// The time limits of one insert.
#[derive(Debug, Clone, Copy)]
pub struct InsertTimeouts {
    pub send: std::time::Duration,
    pub end: std::time::Duration,
    pub total: std::time::Duration,
}

impl InsertTimeouts {
    /// The limits used in production: 10 s to send, 30 s to finish and 35 s
    /// in all.
    pub fn production() -> (timeouts: InsertTimeouts)
        ensures
            timeouts.is_production(),
            whole_seconds(timeouts.send) < whole_seconds(timeouts.end) < whole_seconds(
                timeouts.total,
            ),
    {
        InsertTimeouts {
            send: duration_from_secs(INSERT_SEND_TIMEOUT_SECS),
            end: duration_from_secs(INSERT_END_TIMEOUT_SECS),
            total: duration_from_secs(INSERT_TOTAL_TIMEOUT_SECS),
        }
    }
}

/// Where records are written: a ClickHouse client and the insert limits.
pub struct RawDataStore {
    client: clickhouse::Client,
    timeouts: InsertTimeouts,
}

impl RawDataStore {
    /// The store with the production limits.
    pub fn new(client: clickhouse::Client) -> (store: RawDataStore)
        ensures
            store.client_spec() == client,
            store.timeouts_spec().is_production(),
    {
        RawDataStore { client, timeouts: InsertTimeouts::production() }
    }

    /// The store with the given limits.
    pub fn with_timeouts(client: clickhouse::Client, timeouts: InsertTimeouts) -> (store:
        RawDataStore)
        ensures
            store.client_spec() == client,
            store.timeouts_spec() == timeouts,
    {
        RawDataStore { client, timeouts }
    }

    /// The client of this store.
    pub closed spec fn client_spec(&self) -> clickhouse::Client {
        self.client
    }

    /// The limits of this store.
    pub closed spec fn timeouts_spec(&self) -> InsertTimeouts {
        self.timeouts
    }

    /// The client that inserts go through.
    pub fn client(&self) -> (client: &clickhouse::Client)
        ensures
            *client == self.client_spec(),
    {
        &self.client
    }

    /// The physical table that every record is inserted into, whatever its
    /// logical label.
    pub fn table(&self) -> (table: &'static str)
        ensures
            table@ == RAW_DATA_TABLE@,
    {
        RAW_DATA_TABLE
    }

    /// The limits of each insert.
    pub fn timeouts(&self) -> (timeouts: InsertTimeouts)
        ensures
            timeouts == self.timeouts_spec(),
    {
        self.timeouts
    }
}

impl InsertTimeouts {
    /// The production limits: 10 s to send, 30 s to finish and 35 s in all,
    /// in whole seconds.
    pub open spec fn is_production(&self) -> bool {
        &&& whole_seconds(self.send) == INSERT_SEND_TIMEOUT_SECS && subsec_nanos(self.send) == 0
        &&& whole_seconds(self.end) == INSERT_END_TIMEOUT_SECS && subsec_nanos(self.end) == 0
        &&& whole_seconds(self.total) == INSERT_TOTAL_TIMEOUT_SECS && subsec_nanos(self.total) == 0
    }
}

/// A label is accepted exactly when its trimmed text has 1 to 128
/// characters; an empty trimmed text is refused as blank and a longer one as
/// too long, whatever characters it holds.
pub proof fn lemma_table_name_acceptance(label: Seq<char>)
    ensures
        table_name_error(label) is None <==> 0 < trim_whitespace(label).len() <= 128,
        table_name_error(label) matches Some(RawDataError::EmptyTableName) <==> trim_whitespace(
            label,
        ).len() == 0,
        table_name_error(label) matches Some(RawDataError::TableNameTooLong) <==> trim_whitespace(
            label,
        ).len() > 128,
        !(table_name_error(label) matches Some(RawDataError::Serialization(_))),
{
}

} // verus!

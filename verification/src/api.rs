//! The outcomes of the ingestion route: the client errors, the generic
//! server error, and the responses that carry them.

use vstd::prelude::*;
use vstd::string::StringExecFns;

use crate::raw_data::{RawDataError, RawDataRecord, RawDataRequest, StoreError};

verus! {

/// The most ingestion requests that may be in flight at once.
pub const MAX_CONCURRENT_WRITES: usize = 64;

/// The largest request body, in bytes.
pub const MAX_REQUEST_BODY_BYTES: usize = 1_048_576;

/// `413 Payload Too Large`.
pub const STATUS_PAYLOAD_TOO_LARGE: u16 = 413;

/// `415 Unsupported Media Type`.
pub const STATUS_UNSUPPORTED_MEDIA_TYPE: u16 = 415;

/// One field that a request got wrong.
#[derive(Debug)]
pub struct FieldViolation {
    pub field: &'static str,
    pub description: String,
    pub reason: &'static str,
}

/// An error that the route answers with.
#[derive(Debug)]
pub enum ApiError {
    /// The request is malformed; `status` is 400, 413 or 415.
    InvalidArgument { violation: FieldViolation, status: u16 },
    /// The request carries no valid ingestion token.
    Unauthenticated { reason: &'static str },
    /// Too many writes are in flight.
    ResourceExhausted { message: &'static str, quota_subject: &'static str, quota_description: &'static str },
    /// The request failed on the server; the message names no cause.
    Internal { message: &'static str },
}

impl ApiError {
    /// The HTTP status of the error.
    pub open spec fn status_code(&self) -> u16 {
        match self {
            ApiError::InvalidArgument { status, .. } => *status,
            ApiError::Unauthenticated { .. } => 401,
            ApiError::ResourceExhausted { .. } => 429,
            ApiError::Internal { .. } => 500,
        }
    }

    /// The HTTP status of the error.
    pub fn http_status(&self) -> (status: u16)
        ensures
            status == self.status_code(),
    {
        match self {
            ApiError::InvalidArgument { status, .. } => *status,
            ApiError::Unauthenticated { .. } => 401,
            ApiError::ResourceExhausted { .. } => 429,
            ApiError::Internal { .. } => 500,
        }
    }
}

/// A response of the route: its status, the error it carries, whether it
/// sends `WWW-Authenticate: Bearer`, and whether it sends
/// `Cache-Control: no-store`.
#[derive(Debug)]
pub struct ApiResponse {
    pub status: u16,
    pub error: Option<ApiError>,
    pub www_authenticate_bearer: bool,
    pub no_store: bool,
}

/// The generic server error: it names no store, database or cause.
pub open spec fn is_generic_internal_error(error: ApiError) -> bool {
    error matches ApiError::Internal { message } && message@ == "raw data ingestion failed"@
}

/// The generic server error.
pub fn internal_error() -> (error: ApiError)
    ensures
        is_generic_internal_error(error),
{
    ApiError::Internal { message: "raw data ingestion failed" }
}

/// The error for a request that finds every write slot taken.
pub open spec fn is_capacity_error(error: ApiError) -> bool {
    error matches ApiError::ResourceExhausted { message, quota_subject, quota_description }
        && message@ == "raw data ingestion is busy"@ && quota_subject@ == "raw_data_writes"@
        && quota_description@ == "too many concurrent writes"@
}

/// The answer when every write slot is taken.
pub fn capacity_error() -> (error: ApiError)
    ensures
        is_capacity_error(error),
        error.status_code() == 429,
{
    ApiError::ResourceExhausted {
        message: "raw data ingestion is busy",
        quota_subject: "raw_data_writes",
        quota_description: "too many concurrent writes",
    }
}

/// The client error for a JSON body that was refused with the given
/// status: 413 for a body over the limit, 415 for a missing JSON content
/// type, and 400 for any other malformed body.
pub open spec fn is_rejection_error(rejection_status: u16, error: ApiError) -> bool {
    error matches ApiError::InvalidArgument { violation, status } && violation.field@ == "body"@
        && if rejection_status == STATUS_PAYLOAD_TOO_LARGE {
        &&& status == 413
        &&& violation.description@ == "Request body exceeds the limit"@
        &&& violation.reason@ == "TOO_LARGE"@
    } else if rejection_status == STATUS_UNSUPPORTED_MEDIA_TYPE {
        &&& status == 415
        &&& violation.description@ == "Content-Type must be application/json"@
        &&& violation.reason@ == "INVALID"@
    } else {
        &&& status == 400
        &&& violation.description@ == "Expected a JSON object containing table and raw_data"@
        &&& violation.reason@ == "INVALID"@
    }
}

/// Maps the status with which the JSON body was refused to the client
/// error.
pub fn request_rejection(rejection_status: u16) -> (error: ApiError)
    ensures
        is_rejection_error(rejection_status, error),
{
    if rejection_status == STATUS_PAYLOAD_TOO_LARGE {
        return ApiError::InvalidArgument {
            violation: FieldViolation {
                field: "body",
                description: String::from_str("Request body exceeds the limit"),
                reason: "TOO_LARGE",
            },
            status: 413,
        };
    }
    if rejection_status == STATUS_UNSUPPORTED_MEDIA_TYPE {
        return ApiError::InvalidArgument {
            violation: FieldViolation {
                field: "body",
                description: String::from_str("Content-Type must be application/json"),
                reason: "INVALID",
            },
            status: 415,
        };
    }
    ApiError::InvalidArgument {
        violation: FieldViolation {
            field: "body",
            description: String::from_str("Expected a JSON object containing table and raw_data"),
            reason: "INVALID",
        },
        status: 400,
    }
}

/// The answer to a refused record: a bad label is a 400 on the `table`
/// field with the label's error message; a value that could not be written
/// out is the generic server error.
pub open spec fn is_record_error(error: RawDataError, api_error: ApiError) -> bool {
    match error {
        RawDataError::EmptyTableName => api_error matches ApiError::InvalidArgument {
            violation,
            status,
        } && status == 400 && violation.field@ == "table"@ && violation.description@
            == "table must not be blank"@ && violation.reason@ == "INVALID"@,
        RawDataError::TableNameTooLong => api_error matches ApiError::InvalidArgument {
            violation,
            status,
        } && status == 400 && violation.field@ == "table"@ && violation.description@
            == "table must be at most 128 characters"@ && violation.reason@ == "INVALID"@,
        RawDataError::Serialization(_) => is_generic_internal_error(api_error),
    }
}

/// Maps a refused record to the answer.
pub fn raw_data_error(error: RawDataError) -> (api_error: ApiError)
    ensures
        is_record_error(error, api_error),
{
    match error {
        RawDataError::EmptyTableName | RawDataError::TableNameTooLong => {
            ApiError::InvalidArgument {
                violation: FieldViolation {
                    field: "table",
                    description: error.message(),
                    reason: "INVALID",
                },
                status: 400,
            }
        },
        RawDataError::Serialization(_) => internal_error(),
    }
}

/// Maps a failed insert to the generic server error, whatever the cause.
pub fn store_error(error: &StoreError) -> (api_error: ApiError)
    ensures
        is_generic_internal_error(api_error),
{
    internal_error()
}

/// The response that carries an error, with its status.
pub fn error_response(error: ApiError) -> (response: ApiResponse)
    ensures
        response.status == error.status_code(),
        response.error == Some(error),
        !response.www_authenticate_bearer,
        !response.no_store,
{
    let status = error.http_status();
    ApiResponse { status, error: Some(error), www_authenticate_bearer: false, no_store: false }
}

/// The answer to a request without a valid ingestion token: 401 with
/// `WWW-Authenticate: Bearer`.
pub fn unauthenticated_response() -> (response: ApiResponse)
    ensures
        response.status == 401,
        response.error matches Some(ApiError::Unauthenticated { reason }) && reason@
            == "INVALID_INGEST_TOKEN"@,
        response.www_authenticate_bearer,
        !response.no_store,
{
    let mut response = error_response(
        ApiError::Unauthenticated { reason: "INVALID_INGEST_TOKEN" },
    );
    response.www_authenticate_bearer = true;
    response
}

/// The same response with `Cache-Control: no-store`.
pub fn no_store(response: ApiResponse) -> (stored: ApiResponse)
    ensures
        stored == (ApiResponse { no_store: true, ..response }),
{
    let mut response = response;
    response.no_store = true;
    response
}

/// The answer to a stored record: `204 No Content`.
pub fn no_content_response() -> (response: ApiResponse)
    ensures
        response.status == 204,
        response.error is None,
        !response.www_authenticate_bearer,
        !response.no_store,
{
    ApiResponse { status: 204, error: None, www_authenticate_bearer: false, no_store: false }
}

/// The request body, or the client error for a body that was refused with
/// the given status.
pub fn accept_body(body: Result<RawDataRequest, u16>) -> (request: Result<RawDataRequest, ApiError>)
    ensures
        match body {
            Ok(b) => request matches Ok(r) && r == b,
            Err(status) => request matches Err(e) && is_rejection_error(status, e),
        },
{
    match body {
        Ok(request) => Ok(request),
        Err(status) => Err(request_rejection(status)),
    }
}

/// The prepared record, or the answer to a refused one.
pub fn accept_record(prepared: Result<RawDataRecord, RawDataError>) -> (record: Result<
    RawDataRecord,
    ApiError,
>)
    ensures
        match prepared {
            Ok(p) => record matches Ok(r) && r == p,
            Err(e) => record matches Err(a) && is_record_error(e, a),
        },
{
    match prepared {
        Ok(record) => Ok(record),
        Err(error) => Err(raw_data_error(error)),
    }
}

/// The answer once the insert has finished: 204 when it was committed, the
/// generic server error otherwise.
pub fn insert_response(inserted: Result<(), StoreError>) -> (response: ApiResponse)
    ensures
        inserted is Ok ==> response.status == 204 && response.error is None,
        inserted is Err ==> response.status == 500 && (response.error matches Some(e)
            && is_generic_internal_error(e)),
        !response.www_authenticate_bearer,
        !response.no_store,
{
    match inserted {
        Ok(()) => no_content_response(),
        Err(error) => error_response(store_error(&error)),
    }
}

/// Each error carries its HTTP status: an invalid argument the status it
/// was made with, a missing token 401, a busy route 429 and a server error
/// 500.
pub proof fn lemma_error_statuses(error: ApiError)
    ensures
        error matches ApiError::InvalidArgument { status, .. } ==> error.status_code() == status,
        error is Unauthenticated ==> error.status_code() == 401,
        error is ResourceExhausted ==> error.status_code() == 429,
        error is Internal ==> error.status_code() == 500,
{
}

/// A refused JSON body is answered 413 when it was too large, 415 when it
/// was not JSON, and 400 otherwise.
pub proof fn lemma_rejection_statuses(rejection_status: u16, error: ApiError)
    requires
        is_rejection_error(rejection_status, error),
    ensures
        rejection_status == 413 ==> error.status_code() == 413,
        rejection_status == 415 ==> error.status_code() == 415,
        rejection_status != 413 && rejection_status != 415 ==> error.status_code() == 400,
{
}

} // verus!

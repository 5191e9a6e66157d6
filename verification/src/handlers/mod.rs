//! The decisions of the HTTP API: which answer each request gets, given what
//! the database returned. The database errors reach this module as their
//! message text.
use vstd::prelude::*;

pub mod instance;
pub mod monitoring;
pub mod server;
pub mod service;

verus! {

pub const STATUS_CREATED: u16 = 201;

pub const STATUS_NO_CONTENT: u16 = 204;

pub const STATUS_BAD_REQUEST: u16 = 400;

pub const STATUS_NOT_FOUND: u16 = 404;

pub const STATUS_INTERNAL_SERVER_ERROR: u16 = 500;

/// A refused request: the HTTP status code and the text of the `"error"` field
/// of the JSON body.
#[derive(Clone, Debug)]
pub struct ApiError {
    pub status: u16,
    pub message: String,
}

/// `e` is the error with code `status` and message `message`.
pub open spec fn is_api_error(e: ApiError, status: u16, message: Seq<char>) -> bool {
    e.status == status && e.message@ == message
}

/// `r` is a refusal with code `status` and message `message`.
pub open spec fn refused<T>(r: Result<T, ApiError>, status: u16, message: Seq<char>) -> bool {
    r matches Err(e) && is_api_error(e, status, message)
}

/// A refusal is an error answer with exactly the given code and message.
pub proof fn lemma_refused<T>(r: Result<T, ApiError>, status: u16, message: Seq<char>)
    ensures
        refused(r, status, message) <==> (r is Err && r->Err_0.status == status
            && r->Err_0.message@ == message),
{
}

/// A 500 answer carrying the database's error message.
pub fn internal_error(message: String) -> (e: ApiError)
    ensures
        is_api_error(e, STATUS_INTERNAL_SERVER_ERROR, message@),
{
    ApiError { status: STATUS_INTERNAL_SERVER_ERROR, message }
}

/// A 404 answer with the given message.
pub fn not_found(message: &str) -> (e: ApiError)
    ensures
        is_api_error(e, STATUS_NOT_FOUND, message@),
{
    ApiError { status: STATUS_NOT_FOUND, message: String::from_str(message) }
}

/// A 400 answer with the given message.
pub fn bad_request(message: &str) -> (e: ApiError)
    ensures
        is_api_error(e, STATUS_BAD_REQUEST, message@),
{
    ApiError { status: STATUS_BAD_REQUEST, message: String::from_str(message) }
}

/// The answer to a read: what it returned, or a 500 with its error message.
pub fn db_result<T>(r: Result<T, String>) -> (out: Result<T, ApiError>)
    ensures
        match r {
            Ok(v) => out == Ok::<T, ApiError>(v),
            Err(m) => refused(out, STATUS_INTERNAL_SERVER_ERROR, m@),
        },
{
    match r {
        Ok(v) => Ok(v),
        Err(m) => Err(internal_error(m)),
    }
}

/// The answer to a lookup by id: the row found, a 404 with `missing` when there
/// is none, or a 500 with the database's error message.
pub fn found<T>(r: Result<Option<T>, String>, missing: &str) -> (out: Result<T, ApiError>)
    ensures
        match r {
            Ok(Some(v)) => out == Ok::<T, ApiError>(v),
            Ok(None) => refused(out, STATUS_NOT_FOUND, missing@),
            Err(m) => refused(out, STATUS_INTERNAL_SERVER_ERROR, m@),
        },
{
    match r {
        Ok(Some(v)) => Ok(v),
        Ok(None) => Err(not_found(missing)),
        Err(m) => Err(internal_error(m)),
    }
}

/// The answer to a delete by id: 204 when a row went, a 404 with `missing` when
/// none did, or a 500 with the database's error message.
pub fn deleted(r: Result<bool, String>, missing: &str) -> (out: Result<u16, ApiError>)
    ensures
        match r {
            Ok(true) => out == Ok::<u16, ApiError>(STATUS_NO_CONTENT),
            Ok(false) => refused(out, STATUS_NOT_FOUND, missing@),
            Err(m) => refused(out, STATUS_INTERNAL_SERVER_ERROR, m@),
        },
{
    match r {
        Ok(true) => Ok(STATUS_NO_CONTENT),
        Ok(false) => Err(not_found(missing)),
        Err(m) => Err(internal_error(m)),
    }
}

} // verus!

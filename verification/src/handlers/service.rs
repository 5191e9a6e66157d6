//! The endpoints of the first schema, before server groups:
//! `POST|GET /api/services`, `GET|DELETE /api/services/{id}`,
//! `GET /api/services/{id}/status` and `GET /api/services/{id}/history`.
//! The program serves the server-group endpoints instead; these are the
//! answers the flat-service endpoints give.
use vstd::prelude::*;

use crate::handlers::instance::{is_valid_service_type, valid_service_type, INVALID_SERVICE_TYPE_MESSAGE};
use crate::handlers::{
    bad_request, db_result, deleted, found, internal_error, not_found, refused, ApiError,
    STATUS_BAD_REQUEST, STATUS_CREATED, STATUS_INTERNAL_SERVER_ERROR, STATUS_NOT_FOUND,
    STATUS_NO_CONTENT,
};
use crate::models::{CreateServiceRequest, Service, ServiceStatus};

verus! {

/// The row to insert for an accepted service registration.
#[derive(Clone, Debug)]
pub struct NewService {
    pub name: String,
    pub service_type: String,
    pub base_url: String,
    pub poll_interval_secs: i64,
}

/// `POST /api/services`, before the insert: the request needs a non-empty
/// `base_url` (checked first) and one of the three service types (400).
pub fn register_service(req: CreateServiceRequest) -> (r: Result<NewService, ApiError>)
    ensures
        if req.base_url@.len() == 0 {
            refused(r, STATUS_BAD_REQUEST, "base_url is required"@)
        } else if !is_valid_service_type(req.service_type@) {
            refused(r, STATUS_BAD_REQUEST, INVALID_SERVICE_TYPE_MESSAGE@)
        } else {
            r == Ok::<NewService, ApiError>(
                (NewService {
                    name: req.name,
                    service_type: req.service_type,
                    base_url: req.base_url,
                    poll_interval_secs: req.poll_interval_secs,
                }),
            )
        },
{
    if req.base_url.as_str().is_empty() {
        return Err(bad_request("base_url is required"));
    }
    if !valid_service_type(req.service_type.as_str()) {
        return Err(bad_request(INVALID_SERVICE_TYPE_MESSAGE));
    }
    Ok(
        NewService {
            name: req.name,
            service_type: req.service_type,
            base_url: req.base_url,
            poll_interval_secs: req.poll_interval_secs,
        },
    )
}

/// `POST /api/services`, after the insert: 201 with the new row, or a 500.
pub fn service_registered(inserted: Result<Service, String>) -> (r: Result<
    (u16, Service),
    ApiError,
>)
    ensures
        match inserted {
            Ok(s) => r == Ok::<(u16, Service), ApiError>((STATUS_CREATED, s)),
            Err(m) => refused(r, STATUS_INTERNAL_SERVER_ERROR, m@),
        },
{
    match inserted {
        Ok(s) => Ok((STATUS_CREATED, s)),
        Err(m) => Err(internal_error(m)),
    }
}

/// `GET /api/services`: every service, or a 500.
pub fn list_services(listed: Result<Vec<Service>, String>) -> (r: Result<Vec<Service>, ApiError>)
    ensures
        match listed {
            Ok(v) => r == Ok::<Vec<Service>, ApiError>(v),
            Err(m) => refused(r, STATUS_INTERNAL_SERVER_ERROR, m@),
        },
{
    db_result(listed)
}

/// `GET /api/services/{id}`: the service, a 404 "Service not found", or a 500.
pub fn get_service(lookup: Result<Option<Service>, String>) -> (r: Result<Service, ApiError>)
    ensures
        match lookup {
            Ok(Some(s)) => r == Ok::<Service, ApiError>(s),
            Ok(None) => refused(r, STATUS_NOT_FOUND, "Service not found"@),
            Err(m) => refused(r, STATUS_INTERNAL_SERVER_ERROR, m@),
        },
{
    found(lookup, "Service not found")
}

/// `DELETE /api/services/{id}`: 204 when a row went, a 404 "Service not
/// found", or a 500.
pub fn delete_service(removed: Result<bool, String>) -> (r: Result<u16, ApiError>)
    ensures
        match removed {
            Ok(true) => r == Ok::<u16, ApiError>(STATUS_NO_CONTENT),
            Ok(false) => refused(r, STATUS_NOT_FOUND, "Service not found"@),
            Err(m) => refused(r, STATUS_INTERNAL_SERVER_ERROR, m@),
        },
{
    deleted(removed, "Service not found")
}

/// The first step of `/status` and `/history`: the service must exist
/// (404 "Service not found", or a 500). After a refusal the handler reads
/// nothing more and answers with it.
pub fn service_exists(lookup: Result<Option<Service>, String>) -> (r: Result<(), ApiError>)
    ensures
        match lookup {
            Ok(Some(_)) => r is Ok,
            Ok(None) => refused(r, STATUS_NOT_FOUND, "Service not found"@),
            Err(m) => refused(r, STATUS_INTERNAL_SERVER_ERROR, m@),
        },
{
    match lookup {
        Ok(Some(_)) => Ok(()),
        Ok(None) => Err(not_found("Service not found")),
        Err(m) => Err(internal_error(m)),
    }
}

/// `GET /api/services/{id}/status`, the second step, taken only once
/// `service_exists` accepted: the latest status, a 404 "No status data
/// available for this service", or a 500.
pub fn get_service_status(latest: Result<Option<ServiceStatus>, String>) -> (r: Result<
    ServiceStatus,
    ApiError,
>)
    ensures
        match latest {
            Ok(Some(s)) => r == Ok::<ServiceStatus, ApiError>(s),
            Ok(None) => refused(r, STATUS_NOT_FOUND, "No status data available for this service"@),
            Err(m) => refused(r, STATUS_INTERNAL_SERVER_ERROR, m@),
        },
{
    found(latest, "No status data available for this service")
}

/// `GET /api/services/{id}/history`, the second step, taken only once
/// `service_exists` accepted (with the row count of
/// `handlers::instance::history_limit`): the rows, or a 500.
pub fn get_service_history(history: Result<Vec<ServiceStatus>, String>) -> (r: Result<
    Vec<ServiceStatus>,
    ApiError,
>)
    ensures
        match history {
            Ok(v) => r == Ok::<Vec<ServiceStatus>, ApiError>(v),
            Err(m) => refused(r, STATUS_INTERNAL_SERVER_ERROR, m@),
        },
{
    db_result(history)
}

} // verus!

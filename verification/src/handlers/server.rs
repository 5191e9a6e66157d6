//! Server-group endpoints: `POST /api/servers`, `GET /api/servers`,
//! `GET /api/servers/{id}`, `DELETE /api/servers/{id}`.
use vstd::prelude::*;

use crate::handlers::{
    db_result, deleted, found, bad_request, refused, ApiError, STATUS_BAD_REQUEST, STATUS_CREATED,
    STATUS_INTERNAL_SERVER_ERROR, STATUS_NOT_FOUND, STATUS_NO_CONTENT,
};
use crate::models::{CreateServerRequest, MonitorServer};

verus! {

/// `POST /api/servers`, before the insert: a server group needs a name.
pub fn create_server(req: &CreateServerRequest) -> (r: Result<(), ApiError>)
    ensures
        req.name@.len() == 0 ==> refused(r, STATUS_BAD_REQUEST, "name is required"@),
        req.name@.len() != 0 ==> r is Ok,
{
    if req.name.as_str().is_empty() {
        return Err(bad_request("name is required"));
    }
    Ok(())
}

/// `POST /api/servers`, after the insert: 201 with the new row, or a 500.
pub fn server_created(inserted: Result<MonitorServer, String>) -> (r: Result<
    (u16, MonitorServer),
    ApiError,
>)
    ensures
        match inserted {
            Ok(s) => r == Ok::<(u16, MonitorServer), ApiError>((STATUS_CREATED, s)),
            Err(m) => refused(r, STATUS_INTERNAL_SERVER_ERROR, m@),
        },
{
    match inserted {
        Ok(s) => Ok((STATUS_CREATED, s)),
        Err(m) => Err(crate::handlers::internal_error(m)),
    }
}

/// `GET /api/servers`: every server group, or a 500.
pub fn list_servers(listed: Result<Vec<MonitorServer>, String>) -> (r: Result<
    Vec<MonitorServer>,
    ApiError,
>)
    ensures
        match listed {
            Ok(v) => r == Ok::<Vec<MonitorServer>, ApiError>(v),
            Err(m) => refused(r, STATUS_INTERNAL_SERVER_ERROR, m@),
        },
{
    db_result(listed)
}

/// `GET /api/servers/{id}` (and the first step of `/detail`): the server group,
/// a 404 "Server not found", or a 500.
pub fn get_server(lookup: Result<Option<MonitorServer>, String>) -> (r: Result<
    MonitorServer,
    ApiError,
>)
    ensures
        match lookup {
            Ok(Some(s)) => r == Ok::<MonitorServer, ApiError>(s),
            Ok(None) => refused(r, STATUS_NOT_FOUND, "Server not found"@),
            Err(m) => refused(r, STATUS_INTERNAL_SERVER_ERROR, m@),
        },
{
    found(lookup, "Server not found")
}

/// `DELETE /api/servers/{id}`: 204 when a row went, a 404 "Server not found", or
/// a 500.
pub fn delete_server(removed: Result<bool, String>) -> (r: Result<u16, ApiError>)
    ensures
        match removed {
            Ok(true) => r == Ok::<u16, ApiError>(STATUS_NO_CONTENT),
            Ok(false) => refused(r, STATUS_NOT_FOUND, "Server not found"@),
            Err(m) => refused(r, STATUS_INTERNAL_SERVER_ERROR, m@),
        },
{
    deleted(removed, "Server not found")
}

} // verus!

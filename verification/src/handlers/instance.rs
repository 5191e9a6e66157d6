//! Instance endpoints: `POST|GET /api/servers/{server_id}/instances`,
//! `GET|DELETE /api/instances/{id}`, `GET /api/instances/{id}/status` and
//! `GET /api/instances/{id}/history`.
use vstd::prelude::*;

use crate::handlers::{
    bad_request, db_result, deleted, found, internal_error, not_found, refused, ApiError,
    STATUS_BAD_REQUEST, STATUS_CREATED, STATUS_INTERNAL_SERVER_ERROR, STATUS_NOT_FOUND,
    STATUS_NO_CONTENT,
};
use crate::models::{
    CreateInstanceRequest, HistoryQuery, MonitorServer, ServiceInstance, ServiceStatus,
};
use crate::text::text_eq;

verus! {

/// The answer to a registration whose `service_type` is not one of the three.
pub const INVALID_SERVICE_TYPE_MESSAGE: &'static str =
    "Invalid service_type. Must be one of: [\"dotnet-ocr\", \"cpp-ocr\", \"rust-ocr\"]";

/// The history length used when a request names none.
pub const DEFAULT_HISTORY_LIMIT: i64 = 100;

/// The longest history a request can ask for.
pub const MAX_HISTORY_LIMIT: i64 = 1000;

/// The answer to an unknown service type names the three accepted ones.
pub proof fn lemma_invalid_service_type_message()
    ensures
        INVALID_SERVICE_TYPE_MESSAGE@
            == "Invalid service_type. Must be one of: [\"dotnet-ocr\", \"cpp-ocr\", \"rust-ocr\"]"@,
{
}

/// The service types an instance can have.
pub open spec fn is_valid_service_type(t: Seq<char>) -> bool {
    t == "dotnet-ocr"@ || t == "cpp-ocr"@ || t == "rust-ocr"@
}

/// Exactly three service types are accepted: "dotnet-ocr", "cpp-ocr" and
/// "rust-ocr"; an empty type is not one of them.
pub proof fn lemma_valid_service_types(t: Seq<char>)
    ensures
        is_valid_service_type(t) <==> (t == "dotnet-ocr"@ || t == "cpp-ocr"@ || t == "rust-ocr"@),
        is_valid_service_type(t) ==> t.len() > 0,
{
    reveal_strlit("dotnet-ocr");
    reveal_strlit("cpp-ocr");
    reveal_strlit("rust-ocr");
}

/// Whether `t` is one of "dotnet-ocr", "cpp-ocr", "rust-ocr".
pub fn valid_service_type(t: &str) -> (r: bool)
    ensures
        r == is_valid_service_type(t@),
{
    text_eq(t, "dotnet-ocr") || text_eq(t, "cpp-ocr") || text_eq(t, "rust-ocr")
}

/// The row to insert for an accepted registration.
#[derive(Clone, Debug)]
pub struct NewInstance {
    pub server_id: i64,
    pub name: String,
    pub service_type: String,
    pub base_url: String,
    pub poll_interval_secs: i64,
}

/// `POST /api/servers/{server_id}/instances`, before the insert. The server
/// group is looked up first (404 "Server not found", or a 500), then the
/// request needs a non-empty `base_url` and one of the three service types
/// (400). An accepted request becomes the row to insert under `server_id`.
pub fn register_instance(
    server_lookup: Result<Option<MonitorServer>, String>,
    server_id: i64,
    req: CreateInstanceRequest,
) -> (r: Result<NewInstance, ApiError>)
    ensures
        server_lookup matches Err(m) ==> refused(r, STATUS_INTERNAL_SERVER_ERROR, m@),
        server_lookup matches Ok(None) ==> refused(r, STATUS_NOT_FOUND, "Server not found"@),
        server_lookup matches Ok(Some(_)) ==> {
            if req.base_url@.len() == 0 {
                refused(r, STATUS_BAD_REQUEST, "base_url is required"@)
            } else if !is_valid_service_type(req.service_type@) {
                refused(r, STATUS_BAD_REQUEST, INVALID_SERVICE_TYPE_MESSAGE@)
            } else {
                r == Ok::<NewInstance, ApiError>(
                    (NewInstance {
                        server_id,
                        name: req.name,
                        service_type: req.service_type,
                        base_url: req.base_url,
                        poll_interval_secs: req.poll_interval_secs,
                    }),
                )
            }
        },
{
    match server_lookup {
        Ok(Some(_)) => {},
        Ok(None) => {
            return Err(not_found("Server not found"));
        },
        Err(m) => {
            return Err(internal_error(m));
        },
    }
    if req.base_url.as_str().is_empty() {
        return Err(bad_request("base_url is required"));
    }
    if !valid_service_type(req.service_type.as_str()) {
        return Err(bad_request(INVALID_SERVICE_TYPE_MESSAGE));
    }
    Ok(
        NewInstance {
            server_id,
            name: req.name,
            service_type: req.service_type,
            base_url: req.base_url,
            poll_interval_secs: req.poll_interval_secs,
        },
    )
}

/// `POST /api/servers/{server_id}/instances`, after the insert: 201 with the new
/// row, or a 500.
pub fn instance_registered(inserted: Result<ServiceInstance, String>) -> (r: Result<
    (u16, ServiceInstance),
    ApiError,
>)
    ensures
        match inserted {
            Ok(i) => r == Ok::<(u16, ServiceInstance), ApiError>((STATUS_CREATED, i)),
            Err(m) => refused(r, STATUS_INTERNAL_SERVER_ERROR, m@),
        },
{
    match inserted {
        Ok(i) => Ok((STATUS_CREATED, i)),
        Err(m) => Err(internal_error(m)),
    }
}

/// `GET /api/servers/{server_id}/instances`: the instances, or a 500.
pub fn list_instances(listed: Result<Vec<ServiceInstance>, String>) -> (r: Result<
    Vec<ServiceInstance>,
    ApiError,
>)
    ensures
        match listed {
            Ok(v) => r == Ok::<Vec<ServiceInstance>, ApiError>(v),
            Err(m) => refused(r, STATUS_INTERNAL_SERVER_ERROR, m@),
        },
{
    db_result(listed)
}

/// `GET /api/instances/{id}`: the instance, a 404 "Instance not found", or a 500.
pub fn get_instance(lookup: Result<Option<ServiceInstance>, String>) -> (r: Result<
    ServiceInstance,
    ApiError,
>)
    ensures
        match lookup {
            Ok(Some(i)) => r == Ok::<ServiceInstance, ApiError>(i),
            Ok(None) => refused(r, STATUS_NOT_FOUND, "Instance not found"@),
            Err(m) => refused(r, STATUS_INTERNAL_SERVER_ERROR, m@),
        },
{
    found(lookup, "Instance not found")
}

/// `DELETE /api/instances/{id}`: 204 when a row went, a 404 "Instance not
/// found", or a 500.
pub fn delete_instance(removed: Result<bool, String>) -> (r: Result<u16, ApiError>)
    ensures
        match removed {
            Ok(true) => r == Ok::<u16, ApiError>(STATUS_NO_CONTENT),
            Ok(false) => refused(r, STATUS_NOT_FOUND, "Instance not found"@),
            Err(m) => refused(r, STATUS_INTERNAL_SERVER_ERROR, m@),
        },
{
    deleted(removed, "Instance not found")
}

/// The first step of `/status` and `/history`: the instance must exist
/// (404 "Instance not found", or a 500). After a refusal the handler reads
/// nothing more and answers with it.
pub fn instance_exists(lookup: Result<Option<ServiceInstance>, String>) -> (r: Result<
    (),
    ApiError,
>)
    ensures
        match lookup {
            Ok(Some(_)) => r is Ok,
            Ok(None) => refused(r, STATUS_NOT_FOUND, "Instance not found"@),
            Err(m) => refused(r, STATUS_INTERNAL_SERVER_ERROR, m@),
        },
{
    match lookup {
        Ok(Some(_)) => Ok(()),
        Ok(None) => Err(not_found("Instance not found")),
        Err(m) => Err(internal_error(m)),
    }
}

/// `GET /api/instances/{id}/status`, the second step, taken only once
/// `instance_exists` accepted: the latest status, a 404 "No status data available for this instance", or a 500.
pub fn get_instance_status(latest: Result<Option<ServiceStatus>, String>) -> (r: Result<
    ServiceStatus,
    ApiError,
>)
    ensures
        match latest {
            Ok(Some(s)) => r == Ok::<ServiceStatus, ApiError>(s),
            Ok(None) => refused(
                r,
                STATUS_NOT_FOUND,
                "No status data available for this instance"@,
            ),
            Err(m) => refused(r, STATUS_INTERNAL_SERVER_ERROR, m@),
        },
{
    found(latest, "No status data available for this instance")
}

/// The number of history rows a request gets: the `limit` it names (100 when
/// it names none), but never more than 1000.
pub fn history_limit(query: &HistoryQuery) -> (r: i64)
    ensures
        r == match query.limit {
            Some(l) => if l < MAX_HISTORY_LIMIT { l } else { MAX_HISTORY_LIMIT },
            None => DEFAULT_HISTORY_LIMIT,
        },
        r <= MAX_HISTORY_LIMIT,
        r <= 1000,
        query.limit is None ==> r == 100,
        (query.limit is Some && query.limit->0 <= 1000) ==> r == query.limit->0,
{
    let l = match query.limit {
        Some(l) => l,
        None => DEFAULT_HISTORY_LIMIT,
    };
    if l < MAX_HISTORY_LIMIT {
        l
    } else {
        MAX_HISTORY_LIMIT
    }
}

/// `GET /api/instances/{id}/history`, the second step, taken only once
/// `instance_exists` accepted (with the row count of `history_limit`): the
/// rows, or a 500.
pub fn get_instance_history(history: Result<Vec<ServiceStatus>, String>) -> (r: Result<
    Vec<ServiceStatus>,
    ApiError,
>)
    ensures
        match history {
            Ok(v) => r == Ok::<Vec<ServiceStatus>, ApiError>(v),
            Err(m) => refused(r, STATUS_INTERNAL_SERVER_ERROR, m@),
        },
{
    db_result(history)
}

} // verus!

use shmtu_monitor::db::sqlite::{plan_v1_migration, rows_deleted, status_history_sql, MigrationPlan};
use shmtu_monitor::handlers::instance::{
    delete_instance, get_instance, get_instance_history, get_instance_status, history_limit,
    instance_exists, instance_registered, list_instances, register_instance, valid_service_type,
    INVALID_SERVICE_TYPE_MESSAGE,
};
use shmtu_monitor::handlers::service::{
    delete_service, get_service, get_service_history, get_service_status, list_services, register_service,
    service_exists, service_registered,
};
use shmtu_monitor::handlers::server::{create_server, delete_server, get_server, list_servers, server_created};
use shmtu_monitor::models::{
    CreateInstanceRequest, CreateServerRequest, CreateServiceRequest, HistoryQuery, Service, MonitorServer, ServiceInstance, ServiceStatus, Timestamp,
};

fn ts() -> Timestamp {
    Timestamp { secs: 1_700_000_000, nanos: 5 }
}

fn server(id: i64) -> MonitorServer {
    MonitorServer { id, name: format!("srv{}", id), description: String::new(), created_at: ts() }
}

fn instance(id: i64, server_id: i64, base_url: &str) -> ServiceInstance {
    ServiceInstance {
        id,
        server_id,
        name: format!("inst{}", id),
        service_type: "rust-ocr".to_string(),
        base_url: base_url.to_string(),
        poll_interval_secs: 10,
        created_at: ts(),
    }
}

fn status(instance_id: i64, s: &str) -> ServiceStatus {
    ServiceStatus {
        id: 1,
        instance_id,
        status: s.to_string(),
        availability_level: "available".to_string(),
        models_loaded: true,
        pending_requests: 1,
        queue_capacity: 4,
        utilization_percent_bits: 25.0f64.to_bits(),
        avg_response_ms_bits: None,
        total_requests: Some(3),
        success_count: Some(3),
        failure_count: Some(0),
        polled_at: ts(),
        response_time_ms_bits: 1.5f64.to_bits(),
    }
}

fn request(service_type: &str, base_url: &str) -> CreateInstanceRequest {
    CreateInstanceRequest {
        name: "ocr-1".to_string(),
        service_type: service_type.to_string(),
        base_url: base_url.to_string(),
        poll_interval_secs: 15,
    }
}

#[test]
fn create_server_requires_a_name() {
    let e = create_server(&CreateServerRequest { name: String::new(), description: "d".to_string() }).unwrap_err();
    assert_eq!(e.status, 400);
    assert_eq!(e.message, "name is required");
    assert!(create_server(&CreateServerRequest { name: "Prod".to_string(), description: String::new() }).is_ok());
}

#[test]
fn server_created_answers_201_or_500() {
    let (code, s) = server_created(Ok(server(7))).unwrap();
    assert_eq!(code, 201);
    assert_eq!(s.id, 7);
    let e = server_created(Err("disk full".to_string())).unwrap_err();
    assert_eq!((e.status, e.message.as_str()), (500, "disk full"));
}

#[test]
fn server_lookups_and_deletes() {
    assert_eq!(get_server(Ok(Some(server(3)))).unwrap().id, 3);
    let e = get_server(Ok(None)).unwrap_err();
    assert_eq!((e.status, e.message.as_str()), (404, "Server not found"));
    let e = get_server(Err("boom".to_string())).unwrap_err();
    assert_eq!((e.status, e.message.as_str()), (500, "boom"));
    assert_eq!(delete_server(Ok(true)).unwrap(), 204);
    let e = delete_server(Ok(false)).unwrap_err();
    assert_eq!((e.status, e.message.as_str()), (404, "Server not found"));
    assert_eq!(delete_server(Err("x".to_string())).unwrap_err().status, 500);
    assert_eq!(list_servers(Ok(vec![server(1), server(2)])).unwrap().len(), 2);
    assert_eq!(list_servers(Err("locked".to_string())).unwrap_err().message, "locked");
}

#[test]
fn service_types() {
    assert!(valid_service_type("dotnet-ocr"));
    assert!(valid_service_type("cpp-ocr"));
    assert!(valid_service_type("rust-ocr"));
    assert!(!valid_service_type("python-ocr"));
    assert!(!valid_service_type("Rust-ocr"));
    assert!(!valid_service_type(""));
}

#[test]
fn register_checks_server_before_body() {
    let e = register_instance(Ok(None), 9, request("bad", "")).unwrap_err();
    assert_eq!((e.status, e.message.as_str()), (404, "Server not found"));
    let e = register_instance(Err("db down".to_string()), 9, request("bad", "")).unwrap_err();
    assert_eq!((e.status, e.message.as_str()), (500, "db down"));
}

#[test]
fn register_validates_body() {
    let e = register_instance(Ok(Some(server(9))), 9, request("rust-ocr", "")).unwrap_err();
    assert_eq!((e.status, e.message.as_str()), (400, "base_url is required"));
    let e = register_instance(Ok(Some(server(9))), 9, request("go-ocr", "http://x")).unwrap_err();
    assert_eq!(e.status, 400);
    assert_eq!(
        e.message,
        format!("Invalid service_type. Must be one of: {:?}", ["dotnet-ocr", "cpp-ocr", "rust-ocr"])
    );
    assert_eq!(e.message, INVALID_SERVICE_TYPE_MESSAGE);
    let n = register_instance(Ok(Some(server(9))), 9, request("cpp-ocr", "http://x")).unwrap();
    assert_eq!(n.server_id, 9);
    assert_eq!(n.name, "ocr-1");
    assert_eq!(n.service_type, "cpp-ocr");
    assert_eq!(n.base_url, "http://x");
    assert_eq!(n.poll_interval_secs, 15);
}

#[test]
fn instance_answers() {
    let (code, i) = instance_registered(Ok(instance(4, 1, "http://a"))).unwrap();
    assert_eq!((code, i.id), (201, 4));
    assert_eq!(instance_registered(Err("e".to_string())).unwrap_err().status, 500);
    assert_eq!(list_instances(Ok(vec![instance(1, 1, "u")])).unwrap().len(), 1);
    assert_eq!(list_instances(Err("e".to_string())).unwrap_err().status, 500);
    assert_eq!(get_instance(Ok(Some(instance(2, 1, "u")))).unwrap().id, 2);
    let e = get_instance(Ok(None)).unwrap_err();
    assert_eq!((e.status, e.message.as_str()), (404, "Instance not found"));
    assert_eq!(delete_instance(Ok(true)).unwrap(), 204);
    let e = delete_instance(Ok(false)).unwrap_err();
    assert_eq!((e.status, e.message.as_str()), (404, "Instance not found"));
    assert!(instance_exists(Ok(Some(instance(2, 1, "u")))).is_ok());
    let e = instance_exists(Ok(None)).unwrap_err();
    assert_eq!((e.status, e.message.as_str()), (404, "Instance not found"));
    assert_eq!(instance_exists(Err("e".to_string())).unwrap_err().status, 500);
}

#[test]
fn latest_status_answers() {
    assert_eq!(get_instance_status(Ok(Some(status(2, "busy")))).unwrap().status, "busy");
    let e = get_instance_status(Ok(None)).unwrap_err();
    assert_eq!((e.status, e.message.as_str()), (404, "No status data available for this instance"));
    assert_eq!(get_instance_status(Err("io".to_string())).unwrap_err().message, "io");
    assert_eq!(get_instance_history(Ok(vec![status(1, "healthy")])).unwrap().len(), 1);
    assert_eq!(get_instance_history(Err("io".to_string())).unwrap_err().status, 500);
}

#[test]
fn history_limit_defaults_and_caps() {
    let q = |limit: Option<i64>| HistoryQuery { from: None, to: Some("2024-01-01".to_string()), limit };
    assert_eq!(history_limit(&q(None)), 100);
    assert_eq!(history_limit(&q(Some(50))), 50);
    assert_eq!(history_limit(&q(Some(1000))), 1000);
    assert_eq!(history_limit(&q(Some(1001))), 1000);
    assert_eq!(history_limit(&q(Some(i64::MAX))), 1000);
    assert_eq!(history_limit(&q(Some(-3))), -3);
}

#[test]
fn history_query_text() {
    let base = "SELECT id, instance_id, status, availability_level, models_loaded, pending_requests, queue_capacity, utilization_percent, avg_response_ms, total_requests, success_count, failure_count, polled_at, response_time_ms FROM service_statuses WHERE instance_id = ?";
    assert_eq!(status_history_sql(false, false), format!("{} ORDER BY polled_at DESC LIMIT ?", base));
    assert_eq!(
        status_history_sql(true, false),
        format!("{} AND polled_at >= ? ORDER BY polled_at DESC LIMIT ?", base)
    );
    assert_eq!(
        status_history_sql(false, true),
        format!("{} AND polled_at <= ? ORDER BY polled_at DESC LIMIT ?", base)
    );
    let both = status_history_sql(true, true);
    assert_eq!(both, format!("{} AND polled_at >= ? AND polled_at <= ? ORDER BY polled_at DESC LIMIT ?", base));
    assert_eq!(both.matches('?').count(), 4);
}

#[test]
fn deletes_count_rows() {
    assert!(!rows_deleted(0));
    assert!(rows_deleted(1));
    assert!(rows_deleted(12));
}

#[test]
fn migration_decisions() {
    assert!(matches!(plan_v1_migration(Ok(false), Ok(0)), MigrationPlan::UpToDate));
    assert!(matches!(plan_v1_migration(Err("e".to_string()), Ok(3)), MigrationPlan::UpToDate));
    assert!(matches!(plan_v1_migration(Ok(true), Ok(2)), MigrationPlan::DropLegacyTables));
    assert!(matches!(plan_v1_migration(Ok(true), Ok(0)), MigrationPlan::CopyLegacyData));
    assert!(matches!(plan_v1_migration(Ok(true), Err("e".to_string())), MigrationPlan::CopyLegacyData));
}

fn legacy_service(id: i64) -> Service {
    Service {
        id,
        name: "ocr".to_string(),
        service_type: "cpp-ocr".to_string(),
        base_url: "http://s".to_string(),
        poll_interval_secs: 10,
        created_at: ts(),
    }
}

fn service_request(service_type: &str, base_url: &str) -> CreateServiceRequest {
    CreateServiceRequest {
        name: "legacy".to_string(),
        service_type: service_type.to_string(),
        base_url: base_url.to_string(),
        poll_interval_secs: 30,
    }
}

#[test]
fn register_service_checks_base_url_then_type() {
    let e = register_service(service_request("bad", "")).unwrap_err();
    assert_eq!((e.status, e.message.as_str()), (400, "base_url is required"));
    let e = register_service(service_request("bad", "http://x")).unwrap_err();
    assert_eq!((e.status, e.message.as_str()), (400, INVALID_SERVICE_TYPE_MESSAGE));
    let n = register_service(service_request("dotnet-ocr", "http://x")).unwrap();
    assert_eq!(n.name, "legacy");
    assert_eq!(n.service_type, "dotnet-ocr");
    assert_eq!(n.base_url, "http://x");
    assert_eq!(n.poll_interval_secs, 30);
}

#[test]
fn service_answers() {
    let (code, s) = service_registered(Ok(legacy_service(3))).unwrap();
    assert_eq!((code, s.id), (201, 3));
    assert_eq!(service_registered(Err("e".to_string())).unwrap_err().status, 500);
    assert_eq!(list_services(Ok(vec![legacy_service(1)])).unwrap().len(), 1);
    assert_eq!(list_services(Err("e".to_string())).unwrap_err().message, "e");
    assert_eq!(get_service(Ok(Some(legacy_service(2)))).unwrap().id, 2);
    let e = get_service(Ok(None)).unwrap_err();
    assert_eq!((e.status, e.message.as_str()), (404, "Service not found"));
    assert_eq!(delete_service(Ok(true)).unwrap(), 204);
    let e = delete_service(Ok(false)).unwrap_err();
    assert_eq!((e.status, e.message.as_str()), (404, "Service not found"));
    assert!(service_exists(Ok(Some(legacy_service(2)))).is_ok());
    let e = service_exists(Ok(None)).unwrap_err();
    assert_eq!((e.status, e.message.as_str()), (404, "Service not found"));
    assert_eq!(service_exists(Err("e".to_string())).unwrap_err().status, 500);
    assert_eq!(get_service_status(Ok(Some(status(2, "healthy")))).unwrap().status, "healthy");
    let e = get_service_status(Ok(None)).unwrap_err();
    assert_eq!((e.status, e.message.as_str()), (404, "No status data available for this service"));
    assert_eq!(get_service_history(Ok(vec![status(2, "busy")])).unwrap().len(), 1);
    assert_eq!(get_service_history(Err("e".to_string())).unwrap_err().status, 500);
}

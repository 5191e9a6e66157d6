//! The data the monitor stores, receives and answers with.
//!
//! Instants are held as seconds and nanoseconds since the Unix epoch (UTC), and
//! each floating-point reading is held as the IEEE-754 bit pattern of its
//! `f64` value: the library passes both through unchanged and never computes
//! with them.
use vstd::prelude::*;

verus! {

/// An instant in UTC: whole seconds since the Unix epoch and the nanoseconds
/// within that second.
#[derive(Clone, Copy, Debug)]
pub struct Timestamp {
    pub secs: i64,
    pub nanos: u32,
}

/// A monitored server group (e.g. "Production OCR Cluster").
/// Each server can contain multiple service instances.
#[derive(Clone, Debug)]
pub struct MonitorServer {
    pub id: i64,
    pub name: String,
    pub description: String,
    pub created_at: Timestamp,
}

/// Request body for creating a new server group.
#[derive(Clone, Debug)]
pub struct CreateServerRequest {
    pub name: String,
    pub description: String,
}

/// A single service instance belonging to a server group.
#[derive(Clone, Debug)]
pub struct ServiceInstance {
    pub id: i64,
    pub server_id: i64,
    pub name: String,
    /// One of "dotnet-ocr", "cpp-ocr", "rust-ocr".
    pub service_type: String,
    pub base_url: String,
    pub poll_interval_secs: i64,
    pub created_at: Timestamp,
}

/// Request body for registering a new service instance.
#[derive(Clone, Debug)]
pub struct CreateInstanceRequest {
    pub name: String,
    pub service_type: String,
    pub base_url: String,
    pub poll_interval_secs: i64,
}

/// The poll interval of an instance whose registration names none.
pub fn default_poll_interval() -> (r: i64)
    ensures
        r == 10,
{
    10
}

/// A monitored service of the first schema, before server groups: the rows of
/// the flat `services` table.
#[derive(Clone, Debug)]
pub struct Service {
    pub id: i64,
    pub name: String,
    pub service_type: String,
    pub base_url: String,
    pub poll_interval_secs: i64,
    pub created_at: Timestamp,
}

/// Request body for registering a service of the first schema.
#[derive(Clone, Debug)]
pub struct CreateServiceRequest {
    pub name: String,
    pub service_type: String,
    pub base_url: String,
    pub poll_interval_secs: i64,
}

/// A status snapshot captured during polling.
#[derive(Clone, Debug)]
pub struct ServiceStatus {
    pub id: i64,
    pub instance_id: i64,
    /// "healthy", "busy" or "unavailable" (or what the service itself reported).
    pub status: String,
    pub availability_level: String,
    pub models_loaded: bool,
    pub pending_requests: i32,
    pub queue_capacity: i32,
    /// Bit pattern of the `f64` utilization percentage.
    pub utilization_percent_bits: u64,
    /// Bit pattern of the `f64` average response time in milliseconds.
    pub avg_response_ms_bits: Option<u64>,
    pub total_requests: Option<i64>,
    pub success_count: Option<i64>,
    pub failure_count: Option<i64>,
    pub polled_at: Timestamp,
    /// Bit pattern of the `f64` time the poll took, in milliseconds.
    pub response_time_ms_bits: u64,
}

/// The response we expect from a service's /api/status endpoint.
#[derive(Clone, Debug)]
pub struct RemoteServiceStatus {
    pub status: Option<String>,
    pub availability_level: Option<String>,
    pub reason: Option<String>,
    pub models_loaded: Option<bool>,
    pub pool_size: Option<i32>,
    pub queue_capacity: Option<i32>,
    pub pending_requests: Option<i32>,
    /// Bit pattern of the reported `f64` average response time.
    pub avg_response_ms_bits: Option<u64>,
    pub total_requests: Option<i64>,
    pub success_count: Option<i64>,
    pub failure_count: Option<i64>,
    pub server_name: Option<String>,
}

/// The health response we expect from /api/health.
#[derive(Clone, Debug)]
pub struct RemoteHealthResponse {
    pub status: Option<String>,
    pub availability_level: Option<String>,
    pub reason: Option<String>,
    pub models_loaded: Option<bool>,
    pub pool_size: Option<i32>,
    pub queue_capacity: Option<i32>,
    pub pending_requests: Option<i32>,
    pub server_name: Option<String>,
}

/// Dashboard summary data.
#[derive(Clone, Debug)]
pub struct DashboardSummary {
    pub total_servers: i64,
    pub total_instances: i64,
    pub healthy_instances: i64,
    pub busy_instances: i64,
    pub unavailable_instances: i64,
    pub servers: Vec<ServerDashboardEntry>,
}

/// One server group on the dashboard, with its instances.
#[derive(Clone, Debug)]
pub struct ServerDashboardEntry {
    pub server: MonitorServer,
    pub instances: Vec<InstanceDashboardEntry>,
}

/// One instance on the dashboard, with its most recent status if any.
#[derive(Clone, Debug)]
pub struct InstanceDashboardEntry {
    pub instance: ServiceInstance,
    pub latest_status: Option<ServiceStatus>,
}

/// Query parameters for history endpoint.
#[derive(Clone, Debug)]
pub struct HistoryQuery {
    pub from: Option<String>,
    pub to: Option<String>,
    pub limit: Option<i64>,
}

/// Server detail with its instances and their latest statuses.
#[derive(Clone, Debug)]
pub struct ServerDetail {
    pub server: MonitorServer,
    pub instances: Vec<InstanceDashboardEntry>,
}

} // verus!

use shmtu_monitor::handlers::monitoring::{
    build_dashboard, build_server_detail, classify, count_health, latest_status_or_none, pair_instances,
    HealthClass,
};
use shmtu_monitor::models::{
    MonitorServer, RemoteHealthResponse, RemoteServiceStatus, ServiceInstance, ServiceStatus, Timestamp,
};
use shmtu_monitor::services::aggregator::count_polls;
use shmtu_monitor::services::poller::{
    accepts_reply, fetch_outcome, health_url, plan_poll_round, poll_reading, record_poll, status_url, PollError,
    PollRound, STATUS_KEEP_COUNT,
};
use shmtu_monitor::services::schedule::PollSchedule;

fn ts() -> Timestamp {
    Timestamp { secs: 1_700_000_000, nanos: 0 }
}

fn server(id: i64) -> MonitorServer {
    MonitorServer { id, name: format!("srv{}", id), description: "d".to_string(), created_at: ts() }
}

fn instance(id: i64, server_id: i64, base_url: &str) -> ServiceInstance {
    ServiceInstance {
        id,
        server_id,
        name: format!("inst{}", id),
        service_type: "dotnet-ocr".to_string(),
        base_url: base_url.to_string(),
        poll_interval_secs: 10,
        created_at: ts(),
    }
}

fn status(instance_id: i64, s: &str) -> ServiceStatus {
    ServiceStatus {
        id: instance_id * 10,
        instance_id,
        status: s.to_string(),
        availability_level: "available".to_string(),
        models_loaded: false,
        pending_requests: 0,
        queue_capacity: 0,
        utilization_percent_bits: 0.0f64.to_bits(),
        avg_response_ms_bits: Some(12.5f64.to_bits()),
        total_requests: None,
        success_count: None,
        failure_count: None,
        polled_at: ts(),
        response_time_ms_bits: 3.0f64.to_bits(),
    }
}

fn remote_status() -> RemoteServiceStatus {
    RemoteServiceStatus {
        status: None,
        availability_level: None,
        reason: None,
        models_loaded: None,
        pool_size: None,
        queue_capacity: None,
        pending_requests: None,
        avg_response_ms_bits: None,
        total_requests: None,
        success_count: None,
        failure_count: None,
        server_name: None,
    }
}

fn remote_health() -> RemoteHealthResponse {
    RemoteHealthResponse {
        status: None,
        availability_level: None,
        reason: None,
        models_loaded: None,
        pool_size: None,
        queue_capacity: None,
        pending_requests: None,
        server_name: None,
    }
}

#[test]
fn classification() {
    assert!(matches!(classify(&Some(status(1, "healthy"))), HealthClass::Healthy));
    assert!(matches!(classify(&Some(status(1, "busy"))), HealthClass::Busy));
    assert!(matches!(classify(&Some(status(1, "unavailable"))), HealthClass::Unavailable));
    assert!(matches!(classify(&Some(status(1, "degraded"))), HealthClass::Unavailable));
    assert!(matches!(classify(&Some(status(1, "HEALTHY"))), HealthClass::Unavailable));
    assert!(matches!(classify(&None), HealthClass::Unavailable));
}

#[test]
fn failed_status_reads_are_dropped() {
    assert!(latest_status_or_none(Err("e".to_string())).is_none());
    assert!(latest_status_or_none(Ok(None)).is_none());
    assert_eq!(latest_status_or_none(Ok(Some(status(4, "busy")))).unwrap().instance_id, 4);
}

#[test]
fn counts_per_group() {
    let v = vec![Some(status(1, "healthy")), None, Some(status(2, "busy")), Some(status(3, "healthy"))];
    assert_eq!(count_health(&v), (2, 1, 1));
    assert_eq!(count_health(&Vec::new()), (0, 0, 0));
}

#[test]
fn dashboard_counts_and_pairs() {
    let servers = vec![server(1), server(2), server(3)];
    let instances = vec![
        vec![instance(10, 1, "http://a"), instance(11, 1, "http://b")],
        vec![],
        vec![instance(30, 3, "http://c"), instance(31, 3, "http://d"), instance(32, 3, "http://e")],
    ];
    let latest = vec![
        vec![Some(status(10, "healthy")), Some(status(11, "busy"))],
        vec![],
        vec![None, Some(status(31, "unavailable")), Some(status(32, "healthy"))],
    ];
    let d = build_dashboard(servers, instances, latest);
    assert_eq!(d.total_servers, 3);
    assert_eq!(d.total_instances, 5);
    assert_eq!(d.healthy_instances, 2);
    assert_eq!(d.busy_instances, 1);
    assert_eq!(d.unavailable_instances, 2);
    assert_eq!(d.healthy_instances + d.busy_instances + d.unavailable_instances, d.total_instances);
    let ids: Vec<i64> = d.servers.iter().map(|e| e.server.id).collect();
    assert_eq!(ids, vec![1, 2, 3]);
    assert_eq!(d.servers[1].instances.len(), 0);
    let third = &d.servers[2].instances;
    assert_eq!(third.iter().map(|e| e.instance.id).collect::<Vec<_>>(), vec![30, 31, 32]);
    assert!(third[0].latest_status.is_none());
    assert_eq!(third[1].latest_status.as_ref().unwrap().instance_id, 31);
}

#[test]
fn empty_dashboard() {
    let d = build_dashboard(Vec::new(), Vec::new(), Vec::new());
    assert_eq!(
        (d.total_servers, d.total_instances, d.healthy_instances, d.busy_instances, d.unavailable_instances),
        (0, 0, 0, 0, 0)
    );
    assert!(d.servers.is_empty());
}

#[test]
fn server_detail_pairs_in_order() {
    let d = build_server_detail(
        server(5),
        vec![instance(50, 5, "u"), instance(51, 5, "v")],
        vec![None, Some(status(51, "busy"))],
    );
    assert_eq!(d.server.id, 5);
    assert_eq!(d.instances.len(), 2);
    assert_eq!(d.instances[0].instance.id, 50);
    assert!(d.instances[0].latest_status.is_none());
    assert_eq!(d.instances[1].latest_status.as_ref().unwrap().status, "busy");
    assert!(pair_instances(Vec::new(), Vec::new()).is_empty());
}

#[test]
fn endpoint_urls() {
    assert_eq!(status_url("http://10.0.0.5:8080"), "http://10.0.0.5:8080/api/status");
    assert_eq!(health_url("http://10.0.0.5:8080/"), "http://10.0.0.5:8080/api/health");
    assert_eq!(status_url("http://h//"), status_url("http://h"));
    assert_eq!(health_url("http://h/base/"), "http://h/base/api/health");
    assert_eq!(status_url(""), "/api/status");
}

fn instance_every(id: i64, secs: i64) -> ServiceInstance {
    let mut i = instance(id, 1, &format!("http://svc{}/", id));
    i.poll_interval_secs = secs;
    i
}

fn polled_ids(r: &PollRound) -> Vec<i64> {
    r.targets.iter().map(|t| t.instance_id).collect()
}

#[test]
fn poll_round_plans() {
    let mut schedule = PollSchedule::new();
    let r = plan_poll_round(&mut schedule, Err("db".to_string()), 0, 10);
    assert!(r.targets.is_empty());
    assert!(r.cleanup_keep.is_none());
    let r = plan_poll_round(&mut schedule, Ok(Vec::new()), 0, 10);
    assert!(r.targets.is_empty());
    assert!(r.cleanup_keep.is_none());
    let r = plan_poll_round(&mut schedule, Ok(vec![instance(1, 1, "http://a/"), instance(2, 1, "http://b")]), 0, 10);
    assert_eq!(r.cleanup_keep, Some(10000));
    assert_eq!(STATUS_KEEP_COUNT, 10000);
    assert_eq!(r.targets.len(), 2);
    assert_eq!(r.targets[0].instance_id, 1);
    assert_eq!(r.targets[0].name, "inst1");
    assert_eq!(r.targets[0].status_url, "http://a/api/status");
    assert_eq!(r.targets[0].health_url, "http://a/api/health");
    assert_eq!(r.targets[1].status_url, "http://b/api/status");
    assert_eq!(schedule.last_polled(1), Some(0));
    assert_eq!(schedule.last_polled(2), Some(0));
    assert_eq!(schedule.last_polled(3), None);
}

#[test]
fn instances_are_polled_at_their_intervals() {
    let listing = || Ok(vec![instance_every(1, 10), instance_every(2, 30), instance_every(3, 0)]);
    let mut schedule = PollSchedule::new();
    let mut seen = Vec::new();
    for tick in 0..7u64 {
        let r = plan_poll_round(&mut schedule, listing(), tick * 10, 10);
        assert_eq!(r.cleanup_keep, Some(10000));
        seen.push(polled_ids(&r));
    }
    assert_eq!(seen[0], vec![1, 2, 3]);
    assert_eq!(seen[1], vec![1, 3]);
    assert_eq!(seen[2], vec![1, 3]);
    assert_eq!(seen[3], vec![1, 2, 3]);
    assert_eq!(seen[6], vec![1, 2, 3]);
    assert_eq!(schedule.last_polled(2), Some(60));
}

#[test]
fn rounds_every_second_poll_at_each_interval() {
    let listing = || Ok(vec![instance_every(1, 3), instance_every(2, 0), instance_every(3, 5)]);
    let mut schedule = PollSchedule::new();
    let mut polls: Vec<Vec<i64>> = Vec::new();
    let mut cleanups = Vec::new();
    for now in 0..11u64 {
        let r = plan_poll_round(&mut schedule, listing(), now, 4);
        polls.push(polled_ids(&r));
        if r.cleanup_keep.is_some() {
            cleanups.push(now);
        }
    }
    let times = |id: i64| -> Vec<usize> {
        polls.iter().enumerate().filter(|(_, p)| p.contains(&id)).map(|(t, _)| t).collect()
    };
    assert_eq!(times(1), vec![0, 3, 6, 9]);
    assert_eq!(times(2), vec![0, 4, 8]);
    assert_eq!(times(3), vec![0, 5, 10]);
    assert_eq!(cleanups, vec![0, 4, 8]);
}

#[test]
fn failed_listing_keeps_schedule() {
    let mut schedule = PollSchedule::new();
    plan_poll_round(&mut schedule, Ok(vec![instance_every(5, 60)]), 0, 10);
    let r = plan_poll_round(&mut schedule, Err("locked".to_string()), 10, 10);
    assert!(r.targets.is_empty());
    assert_eq!(schedule.last_polled(5), Some(0));
    let r = plan_poll_round(&mut schedule, Ok(vec![instance_every(5, 60)]), 50, 10);
    assert!(r.targets.is_empty());
    assert_eq!(r.cleanup_keep, Some(10000));
    let r = plan_poll_round(&mut schedule, Ok(vec![instance_every(5, 60), instance_every(6, 60)]), 60, 10);
    assert_eq!(polled_ids(&r), vec![5, 6]);
}

#[test]
fn removed_instances_are_forgotten() {
    let mut schedule = PollSchedule::new();
    plan_poll_round(&mut schedule, Ok(vec![instance_every(1, 100), instance_every(2, 100)]), 0, 10);
    plan_poll_round(&mut schedule, Ok(vec![instance_every(2, 100)]), 10, 10);
    assert_eq!(schedule.last_polled(1), None);
    assert_eq!(schedule.last_polled(2), Some(0));
    let r = plan_poll_round(&mut schedule, Ok(vec![instance_every(1, 100), instance_every(2, 100)]), 20, 10);
    assert_eq!(polled_ids(&r), vec![1]);
}

#[test]
fn fetch_outcome_needs_one_answer() {
    assert!(matches!(fetch_outcome(None, None), Err(PollError::BothEndpointsFailed)));
    let (s, h) = fetch_outcome(Some(remote_status()), None).unwrap();
    assert!(s.is_some() && h.is_none());
    let (s, h) = fetch_outcome(None, Some(remote_health())).unwrap();
    assert!(s.is_none() && h.is_some());
}

#[test]
fn unreachable_reading() {
    let r = poll_reading(fetch_outcome(None, None));
    assert_eq!(r.status, "unavailable");
    assert_eq!(r.availability_level, "unavailable");
    assert!(!r.models_loaded);
    assert_eq!((r.pending_requests, r.queue_capacity), (0, 0));
    assert!(r.avg_response_ms_bits.is_none() && r.total_requests.is_none());
    assert!(r.success_count.is_none() && r.failure_count.is_none());
}

#[test]
fn merge_prefers_status_then_health_then_defaults() {
    let mut s = remote_status();
    s.status = Some("busy".to_string());
    s.pending_requests = Some(7);
    s.avg_response_ms_bits = Some(40.0f64.to_bits());
    s.total_requests = Some(100);
    let mut h = remote_health();
    h.status = Some("healthy".to_string());
    h.availability_level = Some("degraded".to_string());
    h.pending_requests = Some(1);
    h.queue_capacity = Some(8);
    let r = poll_reading(fetch_outcome(Some(s), Some(h)));
    assert_eq!(r.status, "busy");
    assert_eq!(r.availability_level, "degraded");
    assert!(!r.models_loaded);
    assert_eq!(r.pending_requests, 7);
    assert_eq!(r.queue_capacity, 8);
    assert_eq!(r.avg_response_ms_bits, Some(40.0f64.to_bits()));
    assert_eq!(r.total_requests, Some(100));
    assert_eq!(r.success_count, None);
}

#[test]
fn merge_defaults_when_nothing_reported() {
    let r = poll_reading(fetch_outcome(None, Some(remote_health())));
    assert_eq!(r.status, "healthy");
    assert_eq!(r.availability_level, "available");
    assert!(!r.models_loaded);
    assert_eq!((r.pending_requests, r.queue_capacity), (0, 0));
    let mut h = remote_health();
    h.models_loaded = Some(true);
    let r = poll_reading(fetch_outcome(None, Some(h)));
    assert!(r.models_loaded);
    assert!(r.total_requests.is_none());
}

#[test]
fn poll_record() {
    let reading = poll_reading(fetch_outcome(None, None));
    let s = record_poll(42, reading, 0.0f64.to_bits(), ts(), 12.25f64.to_bits());
    assert_eq!(s.id, 0);
    assert_eq!(s.instance_id, 42);
    assert_eq!(s.status, "unavailable");
    assert_eq!(f64::from_bits(s.response_time_ms_bits), 12.25);
    assert_eq!(s.polled_at.secs, 1_700_000_000);
}

#[test]
fn history_counts() {
    let h = vec![status(1, "healthy"), status(1, "busy"), status(1, "unavailable"), status(1, "healthy")];
    let c = count_polls(&h);
    assert_eq!((c.total_polls, c.healthy_count, c.unavailable_count), (4, 2, 1));
    let c = count_polls(&Vec::new());
    assert_eq!((c.total_polls, c.healthy_count, c.unavailable_count), (0, 0, 0));
}

#[test]
fn only_success_replies_are_read() {
    assert!(accepts_reply(200));
    assert!(accepts_reply(204));
    assert!(accepts_reply(299));
    assert!(!accepts_reply(199));
    assert!(!accepts_reply(300));
    assert!(!accepts_reply(404));
    assert!(!accepts_reply(503));
}

#[test]
fn detail_matches_dashboard_entry() {
    let make = || {
        (
            vec![server(1), server(2)],
            vec![vec![instance(10, 1, "a")], vec![instance(20, 2, "b"), instance(21, 2, "c")]],
            vec![vec![Some(status(10, "busy"))], vec![None, Some(status(21, "healthy"))]],
        )
    };
    let (servers, instances, latest) = make();
    let d = build_dashboard(servers, instances, latest);
    let (mut servers, mut instances, mut latest) = make();
    let det = build_server_detail(servers.remove(1), instances.remove(1), latest.remove(1));
    let entry = &d.servers[1];
    assert_eq!(det.server.id, entry.server.id);
    assert_eq!(det.instances.len(), entry.instances.len());
    for (a, b) in det.instances.iter().zip(entry.instances.iter()) {
        assert_eq!(a.instance.id, b.instance.id);
        assert_eq!(
            a.latest_status.as_ref().map(|s| s.status.clone()),
            b.latest_status.as_ref().map(|s| s.status.clone())
        );
    }
}

#[test]
fn interval_holds_while_other_instances_come_and_go() {
    let mut schedule = PollSchedule::new();
    let mut times = Vec::new();
    for now in 0..8u64 {
        let mut listing = Vec::new();
        if now % 2 == 0 {
            listing.push(instance_every(7, 1));
        }
        listing.push(instance_every(1, 3));
        if now >= 4 {
            listing.push(instance_every(9, 2));
        }
        let r = plan_poll_round(&mut schedule, Ok(listing), now, 10);
        if polled_ids(&r).contains(&1) {
            times.push(now);
        }
    }
    assert_eq!(times, vec![0, 3, 6]);
}

//! The decisions of the periodic poller: which instances a round polls (those
//! the schedule says are due) and at which URLs, whether a round ends with the
//! cleanup of old statuses, and how the replies of a service's `/api/status`
//! and `/api/health` endpoints become one status reading.
use vstd::prelude::*;

use crate::models::{
    RemoteHealthResponse, RemoteServiceStatus, ServiceInstance, ServiceStatus, Timestamp,
};
use crate::services::schedule::{due, due_instances, next_entry, schedule_after, PollSchedule};
use crate::text::{trim_end_slashes, trim_trailing_slashes};

verus! {

/// How many of its most recent statuses each instance keeps after a round.
pub const STATUS_KEEP_COUNT: i64 = 10000;

/// The URL of a service's status endpoint: its base URL without trailing
/// slashes, then `/api/status`.
pub open spec fn status_url_spec(base: Seq<char>) -> Seq<char> {
    trim_end_slashes(base) + "/api/status"@
}

/// The URL of a service's health endpoint: its base URL without trailing
/// slashes, then `/api/health`.
pub open spec fn health_url_spec(base: Seq<char>) -> Seq<char> {
    trim_end_slashes(base) + "/api/health"@
}

/// The status endpoint of the service at `base_url`.
pub fn status_url(base_url: &str) -> (r: String)
    ensures
        r@ == status_url_spec(base_url@),
{
    trim_trailing_slashes(base_url).concat("/api/status")
}

/// The health endpoint of the service at `base_url`.
pub fn health_url(base_url: &str) -> (r: String)
    ensures
        r@ == health_url_spec(base_url@),
{
    trim_trailing_slashes(base_url).concat("/api/health")
}

/// Trimming is idempotent, and its result never ends in `'/'`.
pub proof fn lemma_trim_end_slashes(s: Seq<char>)
    ensures
        trim_end_slashes(trim_end_slashes(s)) == trim_end_slashes(s),
        trim_end_slashes(s).len() > 0 ==> trim_end_slashes(s).last() != '/',
        trim_end_slashes(s).len() <= s.len(),
    decreases s.len(),
{
    if s.len() > 0 && s.last() == '/' {
        lemma_trim_end_slashes(s.drop_last());
    }
}

/// A base URL gives the same endpoints with or without trailing slashes.
pub proof fn lemma_endpoint_ignores_trailing_slash(base: Seq<char>)
    ensures
        status_url_spec(base.push('/')) == status_url_spec(base),
        health_url_spec(base.push('/')) == health_url_spec(base),
{
    assert(base.push('/').drop_last() =~= base);
}

/// The endpoints of a service: its base URL without the trailing slashes,
/// followed by `/api/status` for the status endpoint and by `/api/health` for
/// the health endpoint; a base URL that does not end in `'/'` is kept whole.
pub proof fn lemma_endpoint_urls(base: Seq<char>)
    ensures
        status_url_spec(base) == trim_end_slashes(base) + "/api/status"@,
        health_url_spec(base) == trim_end_slashes(base) + "/api/health"@,
        (base.len() == 0 || base.last() != '/') ==> status_url_spec(base) == base + "/api/status"@,
        (base.len() == 0 || base.last() != '/') ==> health_url_spec(base) == base + "/api/health"@,
{
}

/// One instance to poll in a round.
#[derive(Clone, Debug)]
pub struct PollTarget {
    pub instance_id: i64,
    pub name: String,
    pub status_url: String,
    pub health_url: String,
}

/// What a polling round does: poll each target, then, if `cleanup_keep` is
/// set, delete all but that many of the most recent statuses of each instance.
#[derive(Clone, Debug)]
pub struct PollRound {
    pub targets: Vec<PollTarget>,
    pub cleanup_keep: Option<i64>,
}

/// `t` is the poll target of instance `inst`.
pub open spec fn targets_instance(t: PollTarget, inst: ServiceInstance) -> bool {
    &&& t.instance_id == inst.id
    &&& t.name@ == inst.name@
    &&& t.status_url@ == status_url_spec(inst.base_url@)
    &&& t.health_url@ == health_url_spec(inst.base_url@)
}

/// A poll target carries the instance's id and name, and the instance's own
/// status and health endpoints (not each other's).
pub proof fn lemma_target_fields(t: PollTarget, inst: ServiceInstance)
    requires
        targets_instance(t, inst),
    ensures
        t.instance_id == inst.id,
        t.name@ == inst.name@,
        t.status_url@ == trim_end_slashes(inst.base_url@) + "/api/status"@,
        t.health_url@ == trim_end_slashes(inst.base_url@) + "/api/health"@,
{
}

/// A round at time `now` (seconds since the poller started; rounds run every
/// second), given the listing of all instances, the schedule of past polls and
/// the default interval. When the listing failed or is empty the round does
/// nothing, not even the cleanup, and the schedule stays as it was. Otherwise
/// it polls the due instances, in listing order, and, once every default
/// interval (when `now` is a multiple of it), keeps the last 10000 statuses of
/// each instance; the schedule becomes one entry per listed instance, holding
/// `now` for those polled.
pub fn plan_poll_round(
    schedule: &mut PollSchedule,
    listed: Result<Vec<ServiceInstance>, String>,
    now: u64,
    default_interval: u64,
) -> (r: PollRound)
    requires
        default_interval > 0,
    ensures
        match listed {
            Ok(v) => if v.len() == 0 {
                &&& r.targets.len() == 0
                &&& r.cleanup_keep is None
                &&& final(schedule)@ == old(schedule)@
            } else {
                let due = due_instances(v@, old(schedule)@, now, default_interval);
                &&& r.targets.len() == due.len()
                &&& forall|i: int|
                    0 <= i < due.len() ==> targets_instance(#[trigger] r.targets[i], due[i])
                &&& r.cleanup_keep == if now % default_interval == 0 {
                    Some(STATUS_KEEP_COUNT)
                } else {
                    None
                }
                &&& (r.cleanup_keep is Some ==> r.cleanup_keep == Some(10000i64))
                &&& final(schedule)@ == schedule_after(v@, old(schedule)@, now, default_interval)
            },
            Err(_) => {
                &&& r.targets.len() == 0
                &&& r.cleanup_keep is None
                &&& final(schedule)@ == old(schedule)@
            },
        },
{
    match listed {
        Err(_) => PollRound { targets: Vec::new(), cleanup_keep: None },
        Ok(v) => {
            if v.len() == 0 {
                return PollRound { targets: Vec::new(), cleanup_keep: None };
            }
            let ghost sched = schedule@;
            let n = v.len();
            let mut targets: Vec<PollTarget> = Vec::new();
            let mut entries: Vec<(i64, u64)> = Vec::new();
            let mut i: usize = 0;
            while i < n
                invariant
                    n == v.len(),
                    i <= n,
                    schedule@ == sched,
                    targets.len() == due_instances(v@.take(i as int), sched, now, default_interval).len(),
                    forall|k: int|
                        0 <= k < targets.len() ==> targets_instance(
                            #[trigger] targets[k],
                            due_instances(v@.take(i as int), sched, now, default_interval)[k],
                        ),
                    entries.len() == i,
                    forall|k: int|
                        0 <= k < i ==> #[trigger] entries[k] == next_entry(
                            sched,
                            v[k],
                            now,
                            default_interval,
                        ),
                decreases n - i,
            {
                let inst = &v[i];
                let (is_due_now, last) = due(schedule, inst, now, default_interval);
                proof {
                    assert(v@.take(i + 1).drop_last() =~= v@.take(i as int));
                    assert(v@.take(i + 1).last() == v[i as int]);
                }
                if is_due_now {
                    targets.push(
                        PollTarget {
                            instance_id: inst.id,
                            name: inst.name.clone(),
                            status_url: status_url(inst.base_url.as_str()),
                            health_url: health_url(inst.base_url.as_str()),
                        },
                    );
                    entries.push((inst.id, now));
                } else {
                    let at = match last {
                        Some(t) => t,
                        None => now,
                    };
                    entries.push((inst.id, at));
                }
                i = i + 1;
            }
            assert(v@.take(n as int) =~= v@);
            assert(entries@ =~= schedule_after(v@, sched, now, default_interval));
            schedule.replace(entries);
            let cleanup_keep = if now % default_interval == 0 {
                Some(STATUS_KEEP_COUNT)
            } else {
                None
            };
            PollRound { targets, cleanup_keep }
        },
    }
}

/// Whether an endpoint's reply is read at all: only a success (a 2xx status
/// code) is; any other reply counts as no answer.
pub fn accepts_reply(status_code: u16) -> (r: bool)
    ensures
        r == (200 <= status_code <= 299),
{
    200 <= status_code && status_code <= 299
}

/// Why a poll found no usable reply.
#[derive(Clone, Copy, Debug)]
pub enum PollError {
    /// Neither `/api/status` nor `/api/health` answered with a readable body.
    BothEndpointsFailed,
}

/// Both answers, unless neither endpoint gave one.
pub open spec fn fetch_outcome_spec(
    status_data: Option<RemoteServiceStatus>,
    health_data: Option<RemoteHealthResponse>,
) -> Result<(Option<RemoteServiceStatus>, Option<RemoteHealthResponse>), PollError> {
    if status_data is None && health_data is None {
        Err(PollError::BothEndpointsFailed)
    } else {
        Ok((status_data, health_data))
    }
}

/// The outcome of asking both endpoints, given what each answered (nothing when
/// the request failed, the answer was not a success, or its body did not
/// parse): a failure when both gave nothing, else both answers.
pub fn fetch_outcome(
    status_data: Option<RemoteServiceStatus>,
    health_data: Option<RemoteHealthResponse>,
) -> (r: Result<(Option<RemoteServiceStatus>, Option<RemoteHealthResponse>), PollError>)
    ensures
        r == fetch_outcome_spec(status_data, health_data),
{
    if status_data.is_none() && health_data.is_none() {
        return Err(PollError::BothEndpointsFailed);
    }
    Ok((status_data, health_data))
}

/// The part of a status record that a poll determines (all but the id, the
/// instance, the time, the utilization and the response time).
#[derive(Clone, Debug)]
pub struct PollReading {
    pub status: String,
    pub availability_level: String,
    pub models_loaded: bool,
    pub pending_requests: i32,
    pub queue_capacity: i32,
    pub avg_response_ms_bits: Option<u64>,
    pub total_requests: Option<i64>,
    pub success_count: Option<i64>,
    pub failure_count: Option<i64>,
}

/// The first of two optional texts that is present, else `default`.
pub open spec fn first_text(a: Option<String>, b: Option<String>, default: Seq<char>) -> Seq<
    char,
> {
    match a {
        Some(x) => x@,
        None => match b {
            Some(y) => y@,
            None => default,
        },
    }
}

/// The first of two optional values that is present, else `default`.
pub open spec fn first_value<T>(a: Option<T>, b: Option<T>, default: T) -> T {
    match a {
        Some(x) => x,
        None => match b {
            Some(y) => y,
            None => default,
        },
    }
}

/// The reading of a service that could not be reached.
pub open spec fn is_unreachable_reading(r: PollReading) -> bool {
    &&& r.status@ == "unavailable"@
    &&& r.availability_level@ == "unavailable"@
    &&& !r.models_loaded
    &&& r.pending_requests == 0
    &&& r.queue_capacity == 0
    &&& r.avg_response_ms_bits is None
    &&& r.total_requests is None
    &&& r.success_count is None
    &&& r.failure_count is None
}

/// The reading merged from the two answers: each of status, availability,
/// models_loaded, pending requests and queue capacity comes from `/api/status`
/// when it reports it, else from `/api/health`, else defaults to "healthy",
/// "available", false, 0 and 0; the request statistics come from
/// `/api/status` alone.
pub open spec fn is_merged_reading(
    r: PollReading,
    sd: Option<RemoteServiceStatus>,
    hd: Option<RemoteHealthResponse>,
) -> bool {
    let s_status = match sd { Some(s) => s.status, None => None };
    let s_level = match sd { Some(s) => s.availability_level, None => None };
    let s_models = match sd { Some(s) => s.models_loaded, None => None };
    let s_pending = match sd { Some(s) => s.pending_requests, None => None };
    let s_capacity = match sd { Some(s) => s.queue_capacity, None => None };
    let h_status = match hd { Some(h) => h.status, None => None };
    let h_level = match hd { Some(h) => h.availability_level, None => None };
    let h_models = match hd { Some(h) => h.models_loaded, None => None };
    let h_pending = match hd { Some(h) => h.pending_requests, None => None };
    let h_capacity = match hd { Some(h) => h.queue_capacity, None => None };
    &&& r.status@ == first_text(s_status, h_status, "healthy"@)
    &&& r.availability_level@ == first_text(s_level, h_level, "available"@)
    &&& r.models_loaded == first_value(s_models, h_models, false)
    &&& r.pending_requests == first_value(s_pending, h_pending, 0i32)
    &&& r.queue_capacity == first_value(s_capacity, h_capacity, 0i32)
    &&& r.avg_response_ms_bits == match sd { Some(s) => s.avg_response_ms_bits, None => None }
    &&& r.total_requests == match sd { Some(s) => s.total_requests, None => None }
    &&& r.success_count == match sd { Some(s) => s.success_count, None => None }
    &&& r.failure_count == match sd { Some(s) => s.failure_count, None => None }
}

fn pick_text(a: Option<String>, b: Option<String>, default: &str) -> (r: String)
    ensures
        r@ == first_text(a, b, default@),
{
    match a {
        Some(x) => x,
        None => match b {
            Some(y) => y,
            None => String::from_str(default),
        },
    }
}

fn pick_value<T>(a: Option<T>, b: Option<T>, default: T) -> (r: T)
    ensures
        r == first_value(a, b, default),
{
    match a {
        Some(x) => x,
        None => match b {
            Some(y) => y,
            None => default,
        },
    }
}

/// The reading a poll records: the unreachable reading after a failed fetch,
/// else the merge of the two answers.
pub fn poll_reading(
    fetched: Result<(Option<RemoteServiceStatus>, Option<RemoteHealthResponse>), PollError>,
) -> (r: PollReading)
    ensures
        match fetched {
            Ok((sd, hd)) => is_merged_reading(r, sd, hd),
            Err(_) => is_unreachable_reading(r),
        },
        fetched matches Ok((Some(s), _)) ==> {
            &&& r.avg_response_ms_bits == s.avg_response_ms_bits
            &&& r.total_requests == s.total_requests
            &&& r.success_count == s.success_count
            &&& r.failure_count == s.failure_count
        },
        fetched matches Ok((None, _)) ==> {
            &&& r.avg_response_ms_bits is None
            &&& r.total_requests is None
            &&& r.success_count is None
            &&& r.failure_count is None
        },
        fetched is Err ==> {
            &&& r.status@ == "unavailable"@
            &&& r.availability_level@ == "unavailable"@
            &&& !r.models_loaded
            &&& r.pending_requests == 0
            &&& r.queue_capacity == 0
            &&& r.avg_response_ms_bits is None
            &&& r.total_requests is None
            &&& r.success_count is None
            &&& r.failure_count is None
        },
{
    match fetched {
        Err(_) => PollReading {
            status: String::from_str("unavailable"),
            availability_level: String::from_str("unavailable"),
            models_loaded: false,
            pending_requests: 0,
            queue_capacity: 0,
            avg_response_ms_bits: None,
            total_requests: None,
            success_count: None,
            failure_count: None,
        },
        Ok((sd, hd)) => {
            let (s_status, s_level, s_models, s_pending, s_capacity, s_avg, s_total, s_success, s_failure) =
                match sd {
                Some(s) => (
                    s.status,
                    s.availability_level,
                    s.models_loaded,
                    s.pending_requests,
                    s.queue_capacity,
                    s.avg_response_ms_bits,
                    s.total_requests,
                    s.success_count,
                    s.failure_count,
                ),
                None => (None, None, None, None, None, None, None, None, None),
            };
            let (h_status, h_level, h_models, h_pending, h_capacity) = match hd {
                Some(h) => (
                    h.status,
                    h.availability_level,
                    h.models_loaded,
                    h.pending_requests,
                    h.queue_capacity,
                ),
                None => (None, None, None, None, None),
            };
            PollReading {
                status: pick_text(s_status, h_status, "healthy"),
                availability_level: pick_text(s_level, h_level, "available"),
                models_loaded: pick_value(s_models, h_models, false),
                pending_requests: pick_value(s_pending, h_pending, 0i32),
                queue_capacity: pick_value(s_capacity, h_capacity, 0i32),
                avg_response_ms_bits: s_avg,
                total_requests: s_total,
                success_count: s_success,
                failure_count: s_failure,
            }
        },
    }
}

/// The status record of one poll of instance `instance_id`: the reading, with
/// the utilization, the time of the poll and the time it took, under id 0 (the
/// database assigns the real one).
pub fn record_poll(
    instance_id: i64,
    reading: PollReading,
    utilization_percent_bits: u64,
    polled_at: Timestamp,
    response_time_ms_bits: u64,
) -> (s: ServiceStatus)
    ensures
        s.id == 0,
        s.instance_id == instance_id,
        s.status == reading.status,
        s.availability_level == reading.availability_level,
        s.models_loaded == reading.models_loaded,
        s.pending_requests == reading.pending_requests,
        s.queue_capacity == reading.queue_capacity,
        s.utilization_percent_bits == utilization_percent_bits,
        s.avg_response_ms_bits == reading.avg_response_ms_bits,
        s.total_requests == reading.total_requests,
        s.success_count == reading.success_count,
        s.failure_count == reading.failure_count,
        s.polled_at == polled_at,
        s.response_time_ms_bits == response_time_ms_bits,
{
    ServiceStatus {
        id: 0,
        instance_id,
        status: reading.status,
        availability_level: reading.availability_level,
        models_loaded: reading.models_loaded,
        pending_requests: reading.pending_requests,
        queue_capacity: reading.queue_capacity,
        utilization_percent_bits,
        avg_response_ms_bits: reading.avg_response_ms_bits,
        total_requests: reading.total_requests,
        success_count: reading.success_count,
        failure_count: reading.failure_count,
        polled_at,
        response_time_ms_bits,
    }
}

/// What `/api/status` reports wins over what `/api/health` reports: a merged
/// reading takes the status and the availability level of the status endpoint
/// whenever it reports them, whatever the health endpoint says.
pub proof fn lemma_status_endpoint_preferred(
    r: PollReading,
    s: RemoteServiceStatus,
    hd: Option<RemoteHealthResponse>,
)
    requires
        is_merged_reading(r, Some(s), hd),
    ensures
        s.status matches Some(x) ==> r.status@ == x@,
        s.availability_level matches Some(x) ==> r.availability_level@ == x@,
        s.models_loaded matches Some(x) ==> r.models_loaded == x,
        s.pending_requests matches Some(x) ==> r.pending_requests == x,
        s.queue_capacity matches Some(x) ==> r.queue_capacity == x,
{
}

/// A service that answers on neither endpoint is recorded with the
/// unreachable reading: "unavailable" status and availability, no models, an
/// empty queue and no request statistics.
pub proof fn lemma_silent_service_unreachable(
    fetched: Result<(Option<RemoteServiceStatus>, Option<RemoteHealthResponse>), PollError>,
    r: PollReading,
)
    requires
        fetched == fetch_outcome_spec(None, None),
        match fetched {
            Ok((sd, hd)) => is_merged_reading(r, sd, hd),
            Err(_) => is_unreachable_reading(r),
        },
    ensures
        is_unreachable_reading(r),
        r.status@ == "unavailable"@,
        r.availability_level@ == "unavailable"@,
        !r.models_loaded,
        r.pending_requests == 0,
        r.queue_capacity == 0,
        r.avg_response_ms_bits is None,
        r.total_requests is None,
        r.success_count is None,
        r.failure_count is None,
{
}

/// Asking both endpoints fails exactly when neither answers; otherwise both
/// answers are passed on unchanged.
pub proof fn lemma_fetch_outcome(
    status_data: Option<RemoteServiceStatus>,
    health_data: Option<RemoteHealthResponse>,
)
    ensures
        fetch_outcome_spec(status_data, health_data) is Err <==> (status_data is None
            && health_data is None),
        fetch_outcome_spec(status_data, health_data) matches Ok((s, h)) ==> s == status_data && h
            == health_data,
{
}

/// The request statistics of a reading are those `/api/status` reported, each
/// in its own field (average response time, total, successes, failures), and
/// none when it did not answer; `/api/health` never supplies them.
pub proof fn lemma_statistics_from_status_endpoint(
    r: PollReading,
    sd: Option<RemoteServiceStatus>,
    hd: Option<RemoteHealthResponse>,
)
    requires
        is_merged_reading(r, sd, hd),
    ensures
        sd matches Some(s) ==> {
            &&& r.avg_response_ms_bits == s.avg_response_ms_bits
            &&& r.total_requests == s.total_requests
            &&& r.success_count == s.success_count
            &&& r.failure_count == s.failure_count
        },
        sd is None ==> {
            &&& r.avg_response_ms_bits is None
            &&& r.total_requests is None
            &&& r.success_count is None
            &&& r.failure_count is None
        },
{
}

/// Where `/api/status` does not report a field, the reading takes it from
/// `/api/health`, and where neither reports it, the reading holds the default:
/// "healthy", "available", no models, no pending requests, no capacity.
pub proof fn lemma_health_endpoint_then_defaults(
    r: PollReading,
    sd: Option<RemoteServiceStatus>,
    hd: Option<RemoteHealthResponse>,
)
    requires
        is_merged_reading(r, sd, hd),
    ensures
        (sd is None || sd->0.status is None) ==> (if hd is Some && hd->0.status is Some {
            r.status@ == hd->0.status->0@
        } else {
            r.status@ == "healthy"@
        }),
        (sd is None || sd->0.availability_level is None) ==> (if hd is Some
            && hd->0.availability_level is Some {
            r.availability_level@ == hd->0.availability_level->0@
        } else {
            r.availability_level@ == "available"@
        }),
        (sd is None || sd->0.models_loaded is None) ==> (if hd is Some && hd->0.models_loaded is Some {
            r.models_loaded == hd->0.models_loaded->0
        } else {
            !r.models_loaded
        }),
        (sd is None || sd->0.pending_requests is None) ==> (if hd is Some
            && hd->0.pending_requests is Some {
            r.pending_requests == hd->0.pending_requests->0
        } else {
            r.pending_requests == 0
        }),
        (sd is None || sd->0.queue_capacity is None) ==> (if hd is Some
            && hd->0.queue_capacity is Some {
            r.queue_capacity == hd->0.queue_capacity->0
        } else {
            r.queue_capacity == 0
        }),
{
}

} // verus!

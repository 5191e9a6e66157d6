//! Monitoring endpoints: `GET /api/dashboard` and `GET /api/servers/{id}/detail`.
//! The handlers read every server group, its instances and each instance's
//! latest status; this module assembles and counts what they read.
use vstd::prelude::*;

use crate::models::{
    DashboardSummary, InstanceDashboardEntry, MonitorServer, ServerDashboardEntry, ServerDetail,
    ServiceInstance, ServiceStatus,
};
use crate::text::text_eq;

verus! {

/// How the dashboard counts an instance, by its latest status.
#[derive(Clone, Copy, Debug)]
pub enum HealthClass {
    Healthy,
    Busy,
    Unavailable,
}

/// An instance counts as healthy or busy when its latest status says exactly
/// that; any other status, and no status at all, counts as unavailable.
pub open spec fn health_class(latest: Option<ServiceStatus>) -> HealthClass {
    match latest {
        Some(s) => if s.status@ == "healthy"@ {
            HealthClass::Healthy
        } else if s.status@ == "busy"@ {
            HealthClass::Busy
        } else {
            HealthClass::Unavailable
        },
        None => HealthClass::Unavailable,
    }
}

/// How many of the statuses `s` fall in class `c`.
pub open spec fn count_class(s: Seq<Option<ServiceStatus>>, c: HealthClass) -> nat
    decreases s.len(),
{
    if s.len() == 0 {
        0
    } else {
        count_class(s.drop_last(), c) + if health_class(s.last()) == c {
            1nat
        } else {
            0nat
        }
    }
}

/// The number of instances over all server groups.
pub open spec fn nested_len(ls: Seq<Vec<Option<ServiceStatus>>>) -> nat
    decreases ls.len(),
{
    if ls.len() == 0 {
        0
    } else {
        nested_len(ls.drop_last()) + ls.last()@.len()
    }
}

/// The number of instances in class `c` over all server groups.
pub open spec fn nested_count(ls: Seq<Vec<Option<ServiceStatus>>>, c: HealthClass) -> nat
    decreases ls.len(),
{
    if ls.len() == 0 {
        0
    } else {
        nested_count(ls.drop_last(), c) + count_class(ls.last()@, c)
    }
}

/// The class of an instance depends on the text of its latest status alone:
/// "healthy" is healthy and "busy" is busy, whatever the other fields say;
/// any other text, and no status at all, is unavailable.
pub proof fn lemma_class_by_status_text(s: ServiceStatus)
    ensures
        s.status@ == "healthy"@ ==> health_class(Some(s)) == HealthClass::Healthy,
        s.status@ == "busy"@ ==> health_class(Some(s)) == HealthClass::Busy,
        s.status@ != "healthy"@ && s.status@ != "busy"@ ==> health_class(Some(s))
            == HealthClass::Unavailable,
        health_class(None) == HealthClass::Unavailable,
{
    reveal_strlit("healthy");
    reveal_strlit("busy");
    assert("healthy"@.len() != "busy"@.len());
}

/// Counting by class: no statuses count nothing, and appending one adds one to
/// its own class and nothing to the others.
pub proof fn lemma_count_class_push(
    s: Seq<Option<ServiceStatus>>,
    x: Option<ServiceStatus>,
    c: HealthClass,
)
    ensures
        count_class(Seq::<Option<ServiceStatus>>::empty(), c) == 0,
        count_class(s.push(x), c) == count_class(s, c) + if health_class(x) == c {
            1int
        } else {
            0int
        },
{
    assert(s.push(x).drop_last() =~= s);
}

/// Over server groups: no groups count nothing, and adding a group adds its
/// instances to the total and each class's count of them to that class.
pub proof fn lemma_nested_push(
    ls: Seq<Vec<Option<ServiceStatus>>>,
    g: Vec<Option<ServiceStatus>>,
    c: HealthClass,
)
    ensures
        nested_len(Seq::<Vec<Option<ServiceStatus>>>::empty()) == 0,
        nested_count(Seq::<Vec<Option<ServiceStatus>>>::empty(), c) == 0,
        nested_len(ls.push(g)) == nested_len(ls) + g@.len(),
        nested_count(ls.push(g), c) == nested_count(ls, c) + count_class(g@, c),
{
    assert(ls.push(g).drop_last() =~= ls);
}

/// Every instance falls in exactly one of the three classes: the three counts
/// add up to the number of statuses.
pub proof fn lemma_class_partition(s: Seq<Option<ServiceStatus>>)
    ensures
        count_class(s, HealthClass::Healthy) + count_class(s, HealthClass::Busy) + count_class(
            s,
            HealthClass::Unavailable,
        ) == s.len(),
    decreases s.len(),
{
    if s.len() > 0 {
        lemma_class_partition(s.drop_last());
    }
}

/// Over all server groups, healthy, busy and unavailable instances add up to
/// the number of instances.
pub proof fn lemma_nested_partition(ls: Seq<Vec<Option<ServiceStatus>>>)
    ensures
        nested_count(ls, HealthClass::Healthy) + nested_count(ls, HealthClass::Busy)
            + nested_count(ls, HealthClass::Unavailable) == nested_len(ls),
    decreases ls.len(),
{
    if ls.len() > 0 {
        lemma_nested_partition(ls.drop_last());
        lemma_class_partition(ls.last()@);
    }
}

proof fn lemma_take_step<A>(s: Seq<A>, i: int)
    requires
        0 <= i < s.len(),
    ensures
        s.take(i + 1).drop_last() == s.take(i),
        s.take(i + 1).last() == s[i],
{
    assert(s.take(i + 1).drop_last() =~= s.take(i));
}

proof fn lemma_nested_take_le(ls: Seq<Vec<Option<ServiceStatus>>>, i: int)
    requires
        0 <= i <= ls.len(),
    ensures
        nested_len(ls.take(i)) <= nested_len(ls),
    decreases ls.len() - i,
{
    if i < ls.len() {
        lemma_take_step(ls, i);
        lemma_nested_take_le(ls, i + 1);
    } else {
        assert(ls.take(i) =~= ls);
    }
}

/// `entries` pairs each of `instances` with its latest status, in order.
pub open spec fn pairs_with(
    entries: Seq<InstanceDashboardEntry>,
    instances: Seq<ServiceInstance>,
    latest: Seq<Option<ServiceStatus>>,
) -> bool {
    &&& entries.len() == instances.len()
    &&& forall|j: int|
        0 <= j < instances.len() ==> (#[trigger] entries[j]).instance == instances[j]
            && entries[j].latest_status == latest[j]
}

/// The groups of dashboard `d` are `servers`, in order, each with its
/// `instances[k]` paired with their `latest[k]` statuses.
pub open spec fn lists_groups(
    d: DashboardSummary,
    servers: Seq<MonitorServer>,
    instances: Seq<Vec<ServiceInstance>>,
    latest: Seq<Vec<Option<ServiceStatus>>>,
) -> bool {
    &&& d.servers.len() == servers.len()
    &&& forall|k: int|
        0 <= k < servers.len() ==> (#[trigger] d.servers[k]).server == servers[k] && pairs_with(
            d.servers[k].instances@,
            instances[k]@,
            latest[k]@,
        )
}

/// `det` is the detail of group `server`, whose instances are `instances` with
/// latest statuses `latest`.
pub open spec fn is_detail_of(
    det: ServerDetail,
    server: MonitorServer,
    instances: Seq<ServiceInstance>,
    latest: Seq<Option<ServiceStatus>>,
) -> bool {
    det.server == server && pairs_with(det.instances@, instances, latest)
}

/// Read from the same database, the detail of a server group is its entry on
/// the dashboard: the same group, with the same instances and latest statuses
/// in the same order.
pub proof fn lemma_detail_matches_dashboard(
    d: DashboardSummary,
    det: ServerDetail,
    servers: Seq<MonitorServer>,
    instances: Seq<Vec<ServiceInstance>>,
    latest: Seq<Vec<Option<ServiceStatus>>>,
    k: int,
)
    requires
        lists_groups(d, servers, instances, latest),
        0 <= k < servers.len(),
        is_detail_of(det, servers[k], instances[k]@, latest[k]@),
    ensures
        det.server == d.servers[k].server,
        det.instances@ == d.servers[k].instances@,
{
    let a = det.instances@;
    let b = d.servers[k].instances@;
    assert forall|j: int| 0 <= j < a.len() implies a[j] == b[j] by {
        assert(a[j].instance == b[j].instance);
        assert(a[j].latest_status == b[j].latest_status);
    }
    assert(a =~= b);
}

/// What the dashboard keeps of a failed status read: nothing.
pub fn latest_status_or_none(r: Result<Option<ServiceStatus>, String>) -> (out: Option<
    ServiceStatus,
>)
    ensures
        match r {
            Ok(o) => out == o,
            Err(_) => out is None,
        },
{
    match r {
        Ok(o) => o,
        Err(_) => None,
    }
}

/// The class of one instance's latest status.
pub fn classify(latest: &Option<ServiceStatus>) -> (c: HealthClass)
    ensures
        c == health_class(*latest),
{
    match latest {
        Some(s) => {
            if text_eq(s.status.as_str(), "healthy") {
                HealthClass::Healthy
            } else if text_eq(s.status.as_str(), "busy") {
                HealthClass::Busy
            } else {
                HealthClass::Unavailable
            }
        },
        None => HealthClass::Unavailable,
    }
}

/// The healthy, busy and unavailable counts of one server group's instances.
pub fn count_health(latest: &Vec<Option<ServiceStatus>>) -> (r: (i64, i64, i64))
    requires
        latest.len() <= i64::MAX,
    ensures
        r.0 == count_class(latest@, HealthClass::Healthy),
        r.1 == count_class(latest@, HealthClass::Busy),
        r.2 == count_class(latest@, HealthClass::Unavailable),
{
    let n = latest.len();
    let mut healthy: i64 = 0;
    let mut busy: i64 = 0;
    let mut unavailable: i64 = 0;
    let mut j: usize = 0;
    while j < n
        invariant
            n == latest@.len(),
            n <= i64::MAX,
            j <= n,
            healthy == count_class(latest@.take(j as int), HealthClass::Healthy),
            busy == count_class(latest@.take(j as int), HealthClass::Busy),
            unavailable == count_class(latest@.take(j as int), HealthClass::Unavailable),
        decreases n - j,
    {
        proof {
            lemma_take_step(latest@, j as int);
            lemma_class_partition(latest@.take(j as int));
        }
        match classify(&latest[j]) {
            HealthClass::Healthy => healthy = healthy + 1,
            HealthClass::Busy => busy = busy + 1,
            HealthClass::Unavailable => unavailable = unavailable + 1,
        }
        j = j + 1;
    }
    assert(latest@.take(n as int) =~= latest@);
    (healthy, busy, unavailable)
}

/// Pairs each instance with its latest status, in order.
pub fn pair_instances(instances: Vec<ServiceInstance>, latest: Vec<Option<ServiceStatus>>) -> (r:
    Vec<InstanceDashboardEntry>)
    requires
        instances.len() == latest.len(),
    ensures
        r.len() == instances.len(),
        forall|j: int|
            0 <= j < r.len() ==> (#[trigger] r[j]).instance == instances[j] && r[j].latest_status
                == latest[j],
{
    let ghost i0 = instances@;
    let ghost l0 = latest@;
    let n = instances.len();
    let mut insts = instances;
    let mut lats = latest;
    let mut out: Vec<InstanceDashboardEntry> = Vec::new();
    let mut j: usize = 0;
    assert(i0.subrange(0, n as int) =~= i0);
    assert(l0.subrange(0, n as int) =~= l0);
    while j < n
        invariant
            n == i0.len(),
            n == l0.len(),
            j <= n,
            insts@ == i0.subrange(j as int, n as int),
            lats@ == l0.subrange(j as int, n as int),
            out.len() == j,
            forall|k: int|
                0 <= k < j ==> (#[trigger] out[k]).instance == i0[k] && out[k].latest_status
                    == l0[k],
        decreases n - j,
    {
        let inst = insts.remove(0);
        let lat = lats.remove(0);
        assert(i0.subrange(j as int, n as int).remove(0) =~= i0.subrange(j + 1, n as int));
        assert(l0.subrange(j as int, n as int).remove(0) =~= l0.subrange(j + 1, n as int));
        out.push(InstanceDashboardEntry { instance: inst, latest_status: lat });
        j = j + 1;
    }
    out
}

/// `GET /api/dashboard`: every server group with its instances and their latest
/// statuses, and how many instances are healthy, busy and unavailable.
/// `instances[k]` are the instances of `servers[k]` and `latest[k][j]` the latest
/// status of `instances[k][j]`.
pub fn build_dashboard(
    servers: Vec<MonitorServer>,
    instances: Vec<Vec<ServiceInstance>>,
    latest: Vec<Vec<Option<ServiceStatus>>>,
) -> (d: DashboardSummary)
    requires
        instances.len() == servers.len(),
        latest.len() == servers.len(),
        forall|k: int| 0 <= k < servers.len() ==> (#[trigger] instances[k]).len() == latest[k].len(),
        servers.len() <= i64::MAX,
        nested_len(latest@) <= i64::MAX,
    ensures
        d.total_servers == servers.len(),
        d.total_instances == nested_len(latest@),
        d.healthy_instances == nested_count(latest@, HealthClass::Healthy),
        d.busy_instances == nested_count(latest@, HealthClass::Busy),
        d.unavailable_instances == nested_count(latest@, HealthClass::Unavailable),
        d.healthy_instances + d.busy_instances + d.unavailable_instances == d.total_instances,
        d.servers.len() == servers.len(),
        forall|k: int|
            0 <= k < servers.len() ==> (#[trigger] d.servers[k]).server == servers[k]
                && d.servers[k].instances.len() == instances[k].len(),
        forall|k: int, j: int|
            0 <= k < servers.len() && 0 <= j < instances[k].len() ==> (
            #[trigger] d.servers[k].instances[j]).instance == instances[k][j]
                && d.servers[k].instances[j].latest_status == latest[k][j],
        lists_groups(d, servers@, instances@, latest@),
{
    let ghost s0 = servers@;
    let ghost i0 = instances@;
    let ghost l0 = latest@;
    let n = servers.len();
    let mut srvs = servers;
    let mut insts = instances;
    let mut lats = latest;
    let mut entries: Vec<ServerDashboardEntry> = Vec::new();
    let mut total: i64 = 0;
    let mut healthy: i64 = 0;
    let mut busy: i64 = 0;
    let mut unavailable: i64 = 0;
    let mut i: usize = 0;
    assert(s0.subrange(0, n as int) =~= s0);
    assert(i0.subrange(0, n as int) =~= i0);
    assert(l0.subrange(0, n as int) =~= l0);
    assert(l0.take(0) =~= Seq::<Vec<Option<ServiceStatus>>>::empty());
    while i < n
        invariant
            n == s0.len(),
            n == i0.len(),
            n == l0.len(),
            forall|k: int| 0 <= k < n ==> (#[trigger] i0[k]).len() == l0[k].len(),
            nested_len(l0) <= i64::MAX,
            i <= n,
            srvs@ == s0.subrange(i as int, n as int),
            insts@ == i0.subrange(i as int, n as int),
            lats@ == l0.subrange(i as int, n as int),
            entries.len() == i,
            forall|k: int|
                0 <= k < i ==> (#[trigger] entries[k]).server == s0[k]
                    && entries[k].instances.len() == i0[k].len(),
            forall|k: int, j: int|
                0 <= k < i && 0 <= j < i0[k].len() ==> (#[trigger] entries[k].instances[j]).instance
                    == i0[k][j] && entries[k].instances[j].latest_status == l0[k][j],
            total == nested_len(l0.take(i as int)),
            healthy == nested_count(l0.take(i as int), HealthClass::Healthy),
            busy == nested_count(l0.take(i as int), HealthClass::Busy),
            unavailable == nested_count(l0.take(i as int), HealthClass::Unavailable),
        decreases n - i,
    {
        let srv = srvs.remove(0);
        let inst_v = insts.remove(0);
        let lat_v = lats.remove(0);
        assert(s0.subrange(i as int, n as int).remove(0) =~= s0.subrange(i + 1, n as int));
        assert(i0.subrange(i as int, n as int).remove(0) =~= i0.subrange(i + 1, n as int));
        assert(l0.subrange(i as int, n as int).remove(0) =~= l0.subrange(i + 1, n as int));
        proof {
            lemma_take_step(l0, i as int);
            lemma_nested_take_le(l0, i + 1);
            lemma_nested_partition(l0.take(i + 1));
            lemma_class_partition(l0[i as int]@);
        }
        let counts = count_health(&lat_v);
        total = total + lat_v.len() as i64;
        healthy = healthy + counts.0;
        busy = busy + counts.1;
        unavailable = unavailable + counts.2;
        let ghost prev = entries@;
        let paired = pair_instances(inst_v, lat_v);
        entries.push(ServerDashboardEntry { server: srv, instances: paired });
        assert forall|k: int, j: int|
            0 <= k < i + 1 && 0 <= j < i0[k].len() implies (#[trigger] entries[k].instances[j]).instance
            == i0[k][j] && entries[k].instances[j].latest_status == l0[k][j] by {
            if k < i {
                assert(entries[k] == prev[k]);
            }
        }
        i = i + 1;
    }
    assert(l0.take(n as int) =~= l0);
    proof {
        lemma_nested_partition(l0);
    }
    DashboardSummary {
        total_servers: n as i64,
        total_instances: total,
        healthy_instances: healthy,
        busy_instances: busy,
        unavailable_instances: unavailable,
        servers: entries,
    }
}

/// `GET /api/servers/{id}/detail`, once the server group and its instances are
/// read: the group with each instance and its latest status.
pub fn build_server_detail(
    server: MonitorServer,
    instances: Vec<ServiceInstance>,
    latest: Vec<Option<ServiceStatus>>,
) -> (d: ServerDetail)
    requires
        instances.len() == latest.len(),
    ensures
        d.server == server,
        d.instances.len() == instances.len(),
        forall|j: int|
            0 <= j < instances.len() ==> (#[trigger] d.instances[j]).instance == instances[j]
                && d.instances[j].latest_status == latest[j],
        is_detail_of(d, server, instances@, latest@),
{
    let paired = pair_instances(instances, latest);
    ServerDetail { server, instances: paired }
}

} // verus!

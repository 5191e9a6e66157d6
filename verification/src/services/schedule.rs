//! When each instance is due for a poll. Every instance is polled at its own
//! configured interval (the poller's default interval when it configures none,
//! i.e. a non-positive one): the poller runs a round every second, and at each
//! round an instance is due when it was never polled or its interval has passed
//! since its last poll. Time is counted in whole seconds since the poller
//! started.
use vstd::prelude::*;

use crate::models::ServiceInstance;

verus! {

/// When each instance was last polled: pairs of instance id and time.
pub struct PollSchedule {
    entries: Vec<(i64, u64)>,
}

impl View for PollSchedule {
    type V = Seq<(i64, u64)>;

    closed spec fn view(&self) -> Seq<(i64, u64)> {
        self.entries@
    }
}

/// The last poll of instance `id` in `entries` (the first entry for it).
pub open spec fn last_poll_of(entries: Seq<(i64, u64)>, id: i64) -> Option<u64>
    decreases entries.len(),
{
    if entries.len() == 0 {
        None
    } else if entries[0].0 == id {
        Some(entries[0].1)
    } else {
        last_poll_of(entries.drop_first(), id)
    }
}

/// The interval of an instance: its own when positive, else the default.
pub open spec fn effective_interval(instance_interval: i64, default_interval: u64) -> int {
    if instance_interval > 0 {
        instance_interval as int
    } else {
        default_interval as int
    }
}

/// An instance last polled at `last` (never, if `None`) is due at `now` when
/// it was never polled or `interval` seconds have passed since.
pub open spec fn is_due(last: Option<u64>, now: u64, interval: int) -> bool {
    match last {
        None => true,
        Some(t) => now >= t && now - t >= interval,
    }
}

/// Whether `inst` is due at `now`, given the schedule `sched`.
pub open spec fn instance_due(
    sched: Seq<(i64, u64)>,
    inst: ServiceInstance,
    now: u64,
    default_interval: u64,
) -> bool {
    is_due(
        last_poll_of(sched, inst.id),
        now,
        effective_interval(inst.poll_interval_secs, default_interval),
    )
}

/// The instances of `v` that are due, in order.
pub open spec fn due_instances(
    v: Seq<ServiceInstance>,
    sched: Seq<(i64, u64)>,
    now: u64,
    default_interval: u64,
) -> Seq<ServiceInstance>
    decreases v.len(),
{
    if v.len() == 0 {
        Seq::empty()
    } else {
        let rest = due_instances(v.drop_last(), sched, now, default_interval);
        if instance_due(sched, v.last(), now, default_interval) {
            rest.push(v.last())
        } else {
            rest
        }
    }
}

/// The schedule entry of `inst` after a round at `now`: now if it was polled,
/// else its last poll.
pub open spec fn next_entry(
    sched: Seq<(i64, u64)>,
    inst: ServiceInstance,
    now: u64,
    default_interval: u64,
) -> (i64, u64) {
    if instance_due(sched, inst, now, default_interval) {
        (inst.id, now)
    } else {
        (inst.id, last_poll_of(sched, inst.id)->0)
    }
}

/// The schedule after a round at `now` over the listed instances `v`: one entry
/// per listed instance, in order (instances no longer listed are forgotten).
pub open spec fn schedule_after(
    v: Seq<ServiceInstance>,
    sched: Seq<(i64, u64)>,
    now: u64,
    default_interval: u64,
) -> Seq<(i64, u64)> {
    Seq::new(v.len(), |i: int| next_entry(sched, v[i], now, default_interval))
}

/// An instance's interval is its own configured interval whenever that is
/// positive, and the default otherwise; an instance last polled at `t` is due
/// at `now` exactly when its interval has passed, and one never polled is due.
pub proof fn lemma_interval_is_configured(
    instance_interval: i64,
    default_interval: u64,
    t: u64,
    now: u64,
)
    ensures
        instance_interval > 0 ==> effective_interval(instance_interval, default_interval)
            == instance_interval,
        instance_interval <= 0 ==> effective_interval(instance_interval, default_interval)
            == default_interval,
        is_due(None, now, effective_interval(instance_interval, default_interval)),
        instance_interval > 0 ==> (is_due(
            Some(t),
            now,
            effective_interval(instance_interval, default_interval),
        ) <==> now >= t + instance_interval),
        instance_interval <= 0 ==> (is_due(
            Some(t),
            now,
            effective_interval(instance_interval, default_interval),
        ) <==> now >= t + default_interval),
{
}

/// The due instances keep the listing's order: when every listed instance is
/// due the round polls the whole listing as listed, and when none is it polls
/// nothing; the round never polls more instances than are listed.
pub proof fn lemma_due_instances_in_listing_order(
    v: Seq<ServiceInstance>,
    sched: Seq<(i64, u64)>,
    now: u64,
    default_interval: u64,
)
    ensures
        (forall|i: int| 0 <= i < v.len() ==> instance_due(sched, #[trigger] v[i], now, default_interval))
            ==> due_instances(v, sched, now, default_interval) == v,
        (forall|i: int| 0 <= i < v.len() ==> !instance_due(sched, #[trigger] v[i], now, default_interval))
            ==> due_instances(v, sched, now, default_interval).len() == 0,
        due_instances(v, sched, now, default_interval).len() <= v.len(),
    decreases v.len(),
{
    if v.len() > 0 {
        let rest = v.drop_last();
        lemma_due_instances_in_listing_order(rest, sched, now, default_interval);
        if forall|i: int| 0 <= i < v.len() ==> instance_due(sched, #[trigger] v[i], now, default_interval) {
            assert forall|i: int| 0 <= i < rest.len() implies instance_due(
                sched,
                #[trigger] rest[i],
                now,
                default_interval,
            ) by {
                assert(rest[i] == v[i]);
            }
            assert(instance_due(sched, v[v.len() - 1], now, default_interval));
            assert(rest.push(v.last()) =~= v);
        }
        if forall|i: int| 0 <= i < v.len() ==> !instance_due(sched, #[trigger] v[i], now, default_interval) {
            assert forall|i: int| 0 <= i < rest.len() implies !instance_due(
                sched,
                #[trigger] rest[i],
                now,
                default_interval,
            ) by {
                assert(rest[i] == v[i]);
            }
            assert(!instance_due(sched, v[v.len() - 1], now, default_interval));
        }
    }
}

/// The first entry for an id is the one `last_poll_of` finds.
pub proof fn lemma_last_poll_of_first(entries: Seq<(i64, u64)>, id: i64, i: int)
    requires
        0 <= i < entries.len(),
        entries[i].0 == id,
        forall|j: int| 0 <= j < i ==> (#[trigger] entries[j]).0 != id,
    ensures
        last_poll_of(entries, id) == Some(entries[i].1),
    decreases i,
{
    if i > 0 {
        let rest = entries.drop_first();
        assert forall|j: int| 0 <= j < i - 1 implies (#[trigger] rest[j]).0 != id by {
            assert(rest[j] == entries[j + 1]);
        }
        lemma_last_poll_of_first(rest, id, i - 1);
    }
}

/// An id with no entry has never been polled.
pub proof fn lemma_last_poll_of_absent(entries: Seq<(i64, u64)>, id: i64)
    requires
        forall|j: int| 0 <= j < entries.len() ==> (#[trigger] entries[j]).0 != id,
    ensures
        last_poll_of(entries, id) is None,
    decreases entries.len(),
{
    if entries.len() > 0 {
        let rest = entries.drop_first();
        assert forall|j: int| 0 <= j < rest.len() implies (#[trigger] rest[j]).0 != id by {
            assert(rest[j] == entries[j + 1]);
        }
        lemma_last_poll_of_absent(rest, id);
    }
}

/// An instance that was never polled is due.
pub proof fn lemma_unpolled_instance_is_due(
    sched: Seq<(i64, u64)>,
    inst: ServiceInstance,
    now: u64,
    default_interval: u64,
)
    requires
        last_poll_of(sched, inst.id) is None,
    ensures
        instance_due(sched, inst, now, default_interval),
{
}

/// No instance listed before `v[i]` has its id.
pub open spec fn first_with_its_id(v: Seq<ServiceInstance>, i: int) -> bool {
    forall|j: int| 0 <= j < i ==> (#[trigger] v[j]).id != v[i].id
}

/// After a round at `now` that polled a listed instance (listed first under
/// its id, as distinct ids always are), that instance is not due again before
/// its interval has passed, and is due once it has.
pub proof fn lemma_no_early_repoll(
    v: Seq<ServiceInstance>,
    sched: Seq<(i64, u64)>,
    now: u64,
    default_interval: u64,
    i: int,
    later: u64,
)
    requires
        0 <= i < v.len(),
        first_with_its_id(v, i),
        instance_due(sched, v[i], now, default_interval),
        now <= later,
    ensures
        instance_due(schedule_after(v, sched, now, default_interval), v[i], later, default_interval)
            <==> later - now >= effective_interval(v[i].poll_interval_secs, default_interval),
{
    lemma_entry_is_first(v, sched, now, default_interval, i);
}

proof fn lemma_entry_is_first(
    v: Seq<ServiceInstance>,
    sched: Seq<(i64, u64)>,
    now: u64,
    default_interval: u64,
    i: int,
)
    requires
        0 <= i < v.len(),
        first_with_its_id(v, i),
    ensures
        last_poll_of(schedule_after(v, sched, now, default_interval), v[i].id) == Some(
            next_entry(sched, v[i], now, default_interval).1,
        ),
{
    let s = schedule_after(v, sched, now, default_interval);
    assert forall|j: int| 0 <= j < i implies (#[trigger] s[j]).0 != v[i].id by {
        assert(s[j].0 == v[j].id);
    }
    lemma_last_poll_of_first(s, v[i].id, i);
}

/// `inst` is listed in `v` at position `p`, first under its id.
pub open spec fn listed_first(v: Seq<ServiceInstance>, inst: ServiceInstance, p: int) -> bool {
    0 <= p < v.len() && v[p] == inst && first_with_its_id(v, p)
}

/// After a round, the schedule remembers a listed instance (first under its
/// id) as polled now when it was due, and keeps its last poll otherwise; an id
/// that was not listed is forgotten.
pub proof fn lemma_schedule_after_round(
    v: Seq<ServiceInstance>,
    sched: Seq<(i64, u64)>,
    now: u64,
    default_interval: u64,
    i: int,
    id: i64,
)
    requires
        0 <= i < v.len(),
        first_with_its_id(v, i),
    ensures
        last_poll_of(schedule_after(v, sched, now, default_interval), v[i].id) == if instance_due(
            sched,
            v[i],
            now,
            default_interval,
        ) {
            Some(now)
        } else {
            last_poll_of(sched, v[i].id)
        },
        (forall|j: int| 0 <= j < v.len() ==> (#[trigger] v[j]).id != id) ==> last_poll_of(
            schedule_after(v, sched, now, default_interval),
            id,
        ) is None,
{
    lemma_entry_is_first(v, sched, now, default_interval, i);
    let s = schedule_after(v, sched, now, default_interval);
    if forall|j: int| 0 <= j < v.len() ==> (#[trigger] v[j]).id != id {
        assert forall|j: int| 0 <= j < s.len() implies (#[trigger] s[j]).0 != id by {
            assert(s[j].0 == v[j].id);
        }
        lemma_last_poll_of_absent(s, id);
    }
}

/// The schedule after one round per listing of `ls`, one each second, the
/// first at `start`, every listing read having succeeded (the listings may
/// differ from round to round).
pub open spec fn schedule_after_listings(
    ls: Seq<Seq<ServiceInstance>>,
    sched: Seq<(i64, u64)>,
    start: u64,
    default_interval: u64,
) -> Seq<(i64, u64)>
    decreases ls.len(),
{
    if ls.len() == 0 {
        sched
    } else {
        schedule_after(
            ls.last(),
            schedule_after_listings(ls.drop_last(), sched, start, default_interval),
            (start + ls.len() - 1) as u64,
            default_interval,
        )
    }
}

proof fn lemma_last_poll_kept_across_listings(
    ls: Seq<Seq<ServiceInstance>>,
    pos: Seq<int>,
    sched: Seq<(i64, u64)>,
    start: u64,
    default_interval: u64,
    inst: ServiceInstance,
)
    requires
        pos.len() == ls.len(),
        forall|k: int| 0 <= k < ls.len() ==> listed_first(#[trigger] ls[k], inst, pos[k]),
        instance_due(sched, inst, start, default_interval),
        1 <= ls.len() <= effective_interval(inst.poll_interval_secs, default_interval),
        start + ls.len() <= u64::MAX,
    ensures
        last_poll_of(schedule_after_listings(ls, sched, start, default_interval), inst.id) == Some(
            start,
        ),
    decreases ls.len(),
{
    let m = ls.len();
    let prev_ls = ls.drop_last();
    let prev = schedule_after_listings(prev_ls, sched, start, default_interval);
    let now = (start + m - 1) as u64;
    let v = ls.last();
    let p = pos[m - 1];
    assert(listed_first(ls[m - 1], inst, pos[m - 1]));
    lemma_entry_is_first(v, prev, now, default_interval, p);
    if m > 1 {
        assert forall|k: int| 0 <= k < prev_ls.len() implies listed_first(
            #[trigger] prev_ls[k],
            inst,
            pos.drop_last()[k],
        ) by {
            assert(prev_ls[k] == ls[k]);
            assert(listed_first(ls[k], inst, pos[k]));
        }
        lemma_last_poll_kept_across_listings(
            prev_ls,
            pos.drop_last(),
            sched,
            start,
            default_interval,
            inst,
        );
        assert(!instance_due(prev, inst, now, default_interval));
    } else {
        assert(prev_ls.len() == 0);
        assert(prev == sched);
    }
}

/// Each instance is polled at its own interval, whatever else is listed: when
/// rounds run every second with successful listing reads that may differ from
/// round to round, an instance that stays listed (first under its id) and is
/// polled by the round at `start` is next due exactly its interval later, and
/// not in any round between. `ls` are the listings of the `m` rounds from
/// `start` on and `pos[k]` the instance's position in `ls[k]`.
pub proof fn lemma_polled_at_its_interval_across_listings(
    ls: Seq<Seq<ServiceInstance>>,
    pos: Seq<int>,
    sched: Seq<(i64, u64)>,
    start: u64,
    default_interval: u64,
    inst: ServiceInstance,
)
    requires
        pos.len() == ls.len(),
        forall|k: int| 0 <= k < ls.len() ==> listed_first(#[trigger] ls[k], inst, pos[k]),
        instance_due(sched, inst, start, default_interval),
        1 <= ls.len() <= effective_interval(inst.poll_interval_secs, default_interval),
        start + ls.len() <= u64::MAX,
    ensures
        instance_due(
            schedule_after_listings(ls, sched, start, default_interval),
            inst,
            (start + ls.len()) as u64,
            default_interval,
        ) <==> ls.len() == effective_interval(inst.poll_interval_secs, default_interval),
{
    lemma_last_poll_kept_across_listings(ls, pos, sched, start, default_interval, inst);
}

/// A round polls exactly the listed instances that are due: an instance is
/// among the due instances of a listing if and only if it is listed and due.
pub proof fn lemma_polled_iff_listed_and_due(
    v: Seq<ServiceInstance>,
    sched: Seq<(i64, u64)>,
    now: u64,
    default_interval: u64,
    inst: ServiceInstance,
)
    ensures
        due_instances(v, sched, now, default_interval).contains(inst) <==> (v.contains(inst)
            && instance_due(sched, inst, now, default_interval)),
    decreases v.len(),
{
    if v.len() > 0 {
        let rest = v.drop_last();
        lemma_polled_iff_listed_and_due(rest, sched, now, default_interval, inst);
        let dr = due_instances(rest, sched, now, default_interval);
        assert(v =~= rest.push(v.last()));
        if v.contains(inst) && instance_due(sched, inst, now, default_interval) {
            let p = choose|p: int| 0 <= p < v.len() && v[p] == inst;
            if p < v.len() - 1 {
                assert(rest[p] == inst);
                assert(rest.contains(inst));
                let q = choose|q: int| 0 <= q < dr.len() && dr[q] == inst;
                if instance_due(sched, v.last(), now, default_interval) {
                    assert(dr.push(v.last())[q] == inst);
                }
            } else {
                assert(dr.push(v.last())[dr.len() as int] == inst);
            }
        }
        if due_instances(v, sched, now, default_interval).contains(inst) {
            let d = due_instances(v, sched, now, default_interval);
            let q = choose|q: int| 0 <= q < d.len() && d[q] == inst;
            if instance_due(sched, v.last(), now, default_interval) && q == dr.len() {
                assert(v[v.len() - 1] == inst);
            } else {
                assert(dr[q] == inst);
                assert(dr.contains(inst));
                let p = choose|p: int| 0 <= p < rest.len() && rest[p] == inst;
                assert(v[p] == inst);
            }
        }
    }
}

impl PollSchedule {
    /// A schedule in which nothing was polled yet.
    pub fn new() -> (s: PollSchedule)
        ensures
            s@.len() == 0,
    {
        PollSchedule { entries: Vec::new() }
    }

    /// When instance `instance_id` was last polled, if ever.
    pub fn last_polled(&self, instance_id: i64) -> (r: Option<u64>)
        ensures
            r == last_poll_of(self@, instance_id),
    {
        let n = self.entries.len();
        let mut i: usize = 0;
        while i < n
            invariant
                n == self@.len(),
                i <= n,
                forall|j: int| 0 <= j < i ==> (#[trigger] self@[j]).0 != instance_id,
            decreases n - i,
        {
            let (id, at) = self.entries[i];
            if id == instance_id {
                proof {
                    lemma_last_poll_of_first(self@, instance_id, i as int);
                }
                return Some(at);
            }
            i = i + 1;
        }
        proof {
            lemma_last_poll_of_absent(self@, instance_id);
        }
        None
    }

    /// Replaces the whole schedule.
    pub(crate) fn replace(&mut self, entries: Vec<(i64, u64)>)
        ensures
            final(self)@ == entries@,
    {
        self.entries = entries;
    }
}

/// Whether `inst` is due at `now` under `schedule`.
pub fn due(schedule: &PollSchedule, inst: &ServiceInstance, now: u64, default_interval: u64) -> (r: (
    bool,
    Option<u64>,
))
    ensures
        r.0 == instance_due(schedule@, *inst, now, default_interval),
        r.1 == last_poll_of(schedule@, inst.id),
        r.0 == match r.1 {
            None => true,
            Some(t) => now >= t + if inst.poll_interval_secs > 0 {
                inst.poll_interval_secs as int
            } else {
                default_interval as int
            },
        },
{
    let last = schedule.last_polled(inst.id);
    let interval: u64 = if inst.poll_interval_secs > 0 {
        inst.poll_interval_secs as u64
    } else {
        default_interval
    };
    let is = match last {
        None => true,
        Some(t) => now >= t && now - t >= interval,
    };
    (is, last)
}

} // verus!

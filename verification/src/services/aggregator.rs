//! Statistics over an instance's recent status history.
use vstd::prelude::*;

use crate::models::ServiceStatus;
use crate::text::text_eq;

verus! {

/// How many polls a history holds, and how many of them recorded "healthy"
/// and "unavailable".
#[derive(Clone, Copy, Debug)]
pub struct StatusCounts {
    pub total_polls: i64,
    pub healthy_count: i64,
    pub unavailable_count: i64,
}

/// How many statuses of `h` recorded exactly `name`.
pub open spec fn count_status(h: Seq<ServiceStatus>, name: Seq<char>) -> nat
    decreases h.len(),
{
    if h.len() == 0 {
        0
    } else {
        count_status(h.drop_last(), name) + if h.last().status@ == name {
            1nat
        } else {
            0nat
        }
    }
}

/// Counting statuses by name: an empty history has none, and appending one
/// status adds one exactly when its text is the name, and nothing otherwise.
pub proof fn lemma_count_status_push(h: Seq<ServiceStatus>, s: ServiceStatus, name: Seq<char>)
    ensures
        count_status(Seq::<ServiceStatus>::empty(), name) == 0,
        count_status(h.push(s), name) == count_status(h, name) + if s.status@ == name {
            1int
        } else {
            0int
        },
{
    assert(h.push(s).drop_last() =~= h);
}

/// A status whose text is not "unavailable" (such as "degraded" or "busy")
/// never counts as unavailable, and one whose text is not "healthy" never
/// counts as healthy.
pub proof fn lemma_other_statuses_count_in_neither(h: Seq<ServiceStatus>, s: ServiceStatus)
    ensures
        s.status@ != "unavailable"@ ==> count_status(h.push(s), "unavailable"@) == count_status(
            h,
            "unavailable"@,
        ),
        s.status@ != "healthy"@ ==> count_status(h.push(s), "healthy"@) == count_status(
            h,
            "healthy"@,
        ),
        s.status@ == "unavailable"@ ==> count_status(h.push(s), "unavailable"@) == count_status(
            h,
            "unavailable"@,
        ) + 1,
        s.status@ == "healthy"@ ==> count_status(h.push(s), "healthy"@) == count_status(
            h,
            "healthy"@,
        ) + 1,
{
    lemma_count_status_push(h, s, "unavailable"@);
    lemma_count_status_push(h, s, "healthy"@);
}

/// No history has more statuses of one name than statuses.
pub proof fn lemma_count_status_le_len(h: Seq<ServiceStatus>, name: Seq<char>)
    ensures
        count_status(h, name) <= h.len(),
    decreases h.len(),
{
    if h.len() > 0 {
        lemma_count_status_le_len(h.drop_last(), name);
    }
}

/// A poll is never both healthy and unavailable: the two counts together never
/// exceed the number of polls.
pub proof fn lemma_healthy_and_unavailable_within_total(h: Seq<ServiceStatus>)
    ensures
        count_status(h, "healthy"@) + count_status(h, "unavailable"@) <= h.len(),
    decreases h.len(),
{
    reveal_strlit("healthy");
    reveal_strlit("unavailable");
    assert("healthy"@ != "unavailable"@) by {
        assert("healthy"@.len() != "unavailable"@.len());
    }
    if h.len() > 0 {
        lemma_healthy_and_unavailable_within_total(h.drop_last());
    }
}

/// The counts of `history`: its length, and how many of its statuses are
/// "healthy" and how many "unavailable" (any other status counts in neither).
pub fn count_polls(history: &Vec<ServiceStatus>) -> (r: StatusCounts)
    requires
        history.len() <= i64::MAX,
    ensures
        r.total_polls == history.len(),
        r.healthy_count == count_status(history@, "healthy"@),
        r.unavailable_count == count_status(history@, "unavailable"@),
        r.healthy_count + r.unavailable_count <= r.total_polls,
{
    let n = history.len();
    let mut healthy: i64 = 0;
    let mut unavailable: i64 = 0;
    let mut j: usize = 0;
    while j < n
        invariant
            n == history@.len(),
            n <= i64::MAX,
            j <= n,
            healthy == count_status(history@.take(j as int), "healthy"@),
            unavailable == count_status(history@.take(j as int), "unavailable"@),
        decreases n - j,
    {
        proof {
            assert(history@.take(j + 1).drop_last() =~= history@.take(j as int));
            lemma_count_status_le_len(history@.take(j as int), "healthy"@);
            lemma_count_status_le_len(history@.take(j as int), "unavailable"@);
        }
        let st = history[j].status.as_str();
        if text_eq(st, "healthy") {
            healthy = healthy + 1;
        }
        if text_eq(st, "unavailable") {
            unavailable = unavailable + 1;
        }
        j = j + 1;
    }
    assert(history@.take(n as int) =~= history@);
    proof {
        lemma_healthy_and_unavailable_within_total(history@);
    }
    StatusCounts { total_polls: n as i64, healthy_count: healthy, unavailable_count: unavailable }
}

} // verus!

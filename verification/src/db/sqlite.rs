//! The query text of the status history (its filters depend on the request),
//! the meaning of a delete's row count, and the decision of the legacy-schema
//! migration.
use vstd::prelude::*;

verus! {

/// The history query before its optional time filters.
pub const STATUS_HISTORY_SELECT: &'static str = "SELECT id, instance_id, status, availability_level, models_loaded, pending_requests, queue_capacity, utilization_percent, avg_response_ms, total_requests, success_count, failure_count, polled_at, response_time_ms FROM service_statuses WHERE instance_id = ?";

/// The filter that keeps statuses polled at or after a bound.
pub const FROM_FILTER: &'static str = " AND polled_at >= ?";

/// The filter that keeps statuses polled at or before a bound.
pub const TO_FILTER: &'static str = " AND polled_at <= ?";

/// The ordering and the limit of the history query.
pub const NEWEST_FIRST_LIMITED: &'static str = " ORDER BY polled_at DESC LIMIT ?";

/// The history query: the statuses of one instance, filtered by the bounds the
/// request gives, newest first, limited. Its parameters are bound in order:
/// the instance id, the lower bound (if any), the upper bound (if any), the
/// limit.
pub open spec fn status_history_sql_spec(has_from: bool, has_to: bool) -> Seq<char> {
    STATUS_HISTORY_SELECT@ + (if has_from {
        FROM_FILTER@
    } else {
        Seq::<char>::empty()
    }) + (if has_to {
        TO_FILTER@
    } else {
        Seq::<char>::empty()
    }) + NEWEST_FIRST_LIMITED@
}

/// The history query keeps statuses polled at or after the lower bound when the
/// request gives one, at or before the upper bound when it gives one (in that
/// order), and always orders newest first under a limit.
pub proof fn lemma_history_query_text(has_from: bool, has_to: bool)
    ensures
        status_history_sql_spec(has_from, has_to) == STATUS_HISTORY_SELECT@ + (if has_from {
            " AND polled_at >= ?"@
        } else {
            Seq::<char>::empty()
        }) + (if has_to {
            " AND polled_at <= ?"@
        } else {
            Seq::<char>::empty()
        }) + " ORDER BY polled_at DESC LIMIT ?"@,
{
}

/// The text of the history query for a request with or without each bound.
pub fn status_history_sql(has_from: bool, has_to: bool) -> (r: String)
    ensures
        r@ == status_history_sql_spec(has_from, has_to),
{
    let mut query = String::from_str(STATUS_HISTORY_SELECT);
    if has_from {
        query.append(FROM_FILTER);
    }
    if has_to {
        query.append(TO_FILTER);
    }
    query.append(NEWEST_FIRST_LIMITED);
    assert(query@ =~= status_history_sql_spec(has_from, has_to));
    query
}

/// A delete by id found its row when it affected at least one.
pub fn rows_deleted(rows_affected: u64) -> (r: bool)
    ensures
        r == (rows_affected > 0),
{
    rows_affected > 0
}

/// The name of the server group that adopts the instances of a legacy database.
pub const LEGACY_SERVER_NAME: &'static str = "Default Server";

/// The description of that server group.
pub const LEGACY_SERVER_DESCRIPTION: &'static str = "Auto-migrated from v1";

/// A legacy database's services are adopted by the "Default Server" group,
/// described as "Auto-migrated from v1".
pub proof fn lemma_legacy_server_group()
    ensures
        LEGACY_SERVER_NAME@ == "Default Server"@,
        LEGACY_SERVER_DESCRIPTION@ == "Auto-migrated from v1"@,
{
}

/// What to do about the flat `services` table of the first schema.
#[derive(Clone, Copy, Debug)]
pub enum MigrationPlan {
    /// There is no legacy table.
    UpToDate,
    /// Server groups exist already: drop the legacy tables.
    DropLegacyTables,
    /// Move the legacy services under a new default server group, carry their
    /// statuses over, then drop the legacy tables.
    CopyLegacyData,
}

/// The plan, given whether the legacy table exists and how many server groups
/// there are; a probe that fails counts as "no legacy table" and "no server
/// groups".
pub open spec fn migration_plan_spec(
    legacy_table_probe: Result<bool, String>,
    server_count_probe: Result<i64, String>,
) -> MigrationPlan {
    let legacy = match legacy_table_probe {
        Ok(b) => b,
        Err(_) => false,
    };
    let servers = match server_count_probe {
        Ok(c) => c,
        Err(_) => 0,
    };
    if !legacy {
        MigrationPlan::UpToDate
    } else if servers > 0 {
        MigrationPlan::DropLegacyTables
    } else {
        MigrationPlan::CopyLegacyData
    }
}

/// Decides the migration from the first schema.
pub fn plan_v1_migration(
    legacy_table_probe: Result<bool, String>,
    server_count_probe: Result<i64, String>,
) -> (r: MigrationPlan)
    ensures
        r == migration_plan_spec(legacy_table_probe, server_count_probe),
        legacy_table_probe != Ok::<bool, String>(true) ==> r == MigrationPlan::UpToDate,
{
    let legacy = match legacy_table_probe {
        Ok(b) => b,
        Err(_) => false,
    };
    if !legacy {
        return MigrationPlan::UpToDate;
    }
    let servers = match server_count_probe {
        Ok(c) => c,
        Err(_) => 0,
    };
    if servers > 0 {
        MigrationPlan::DropLegacyTables
    } else {
        MigrationPlan::CopyLegacyData
    }
}

/// The legacy tables are touched only when the probe found them: without a
/// legacy table (or when the probe failed) nothing is done, whatever the server
/// count; with one, they are dropped when server groups exist already and
/// copied otherwise (also when the count failed).
pub proof fn lemma_migration_only_with_legacy_table(
    legacy_table_probe: Result<bool, String>,
    server_count_probe: Result<i64, String>,
)
    ensures
        legacy_table_probe != Ok::<bool, String>(true) ==> migration_plan_spec(
            legacy_table_probe,
            server_count_probe,
        ) == MigrationPlan::UpToDate,
        legacy_table_probe == Ok::<bool, String>(true) ==> (migration_plan_spec(
            legacy_table_probe,
            server_count_probe,
        ) == if server_count_probe matches Ok(c) && c > 0 {
            MigrationPlan::DropLegacyTables
        } else {
            MigrationPlan::CopyLegacyData
        }),
{
}

} // verus!

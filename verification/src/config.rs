//! Application configuration, from the values of three environment variables.
use vstd::prelude::*;

use crate::text::{parse_unsigned, parse_unsigned_spec};

verus! {

/// The port when `MONITOR_PORT` is unset or not a port number.
pub const DEFAULT_PORT: u16 = 3100;

/// The database when `DATABASE_URL` is unset.
pub const DEFAULT_DATABASE_URL: &'static str = "sqlite:shmtu_monitor.db?mode=rwc";

/// The poll interval when `POLL_INTERVAL_SECS` is unset or not a number.
pub const DEFAULT_POLL_INTERVAL_SECS: u64 = 10;

/// Application configuration loaded from environment variables.
#[derive(Clone, Debug)]
pub struct AppConfig {
    pub port: u16,
    pub database_url: String,
    pub poll_interval_secs: u64,
}

/// The number `value` holds when it parses as an unsigned integer no larger
/// than `max`, else `default`.
pub open spec fn parsed_or(value: Option<String>, max: int, default: int) -> int {
    match value {
        Some(v) => match parse_unsigned_spec(v@, max) {
            Some(n) => n,
            None => default,
        },
        None => default,
    }
}

/// A configured number: the default when the variable is unset or does not
/// parse, and the parsed value otherwise.
pub proof fn lemma_parsed_or(value: Option<String>, max: int, default: int)
    ensures
        value is None ==> parsed_or(value, max, default) == default,
        value matches Some(v) ==> parsed_or(value, max, default) == match parse_unsigned_spec(
            v@,
            max,
        ) {
            Some(n) => n,
            None => default,
        },
{
}

fn parse_or(value: &Option<String>, max: u64, default: u64) -> (r: u64)
    requires
        default <= max,
    ensures
        r == parsed_or(*value, max as int, default as int),
        r <= max,
{
    match value {
        Some(v) => match parse_unsigned(v.as_str(), max) {
            Some(n) => n,
            None => default,
        },
        None => default,
    }
}

impl AppConfig {
    /// The configuration given the values of `MONITOR_PORT`, `DATABASE_URL` and
    /// `POLL_INTERVAL_SECS` (`None` for a variable that is unset or not
    /// Unicode): each number falls back to its default when absent or not a
    /// number of its type, and the database URL when absent.
    pub fn from_vars(
        port: Option<String>,
        database_url: Option<String>,
        poll_interval_secs: Option<String>,
    ) -> (c: AppConfig)
        ensures
            c.port == parsed_or(port, u16::MAX as int, DEFAULT_PORT as int),
            c.database_url@ == match database_url {
                Some(u) => u@,
                None => DEFAULT_DATABASE_URL@,
            },
            c.poll_interval_secs == parsed_or(
                poll_interval_secs,
                u64::MAX as int,
                DEFAULT_POLL_INTERVAL_SECS as int,
            ),
            port is None ==> c.port == 3100,
            database_url is None ==> c.database_url@ == "sqlite:shmtu_monitor.db?mode=rwc"@,
            poll_interval_secs is None ==> c.poll_interval_secs == 10,
    {
        let p = parse_or(&port, 65535, DEFAULT_PORT as u64);
        let interval = parse_or(&poll_interval_secs, u64::MAX, DEFAULT_POLL_INTERVAL_SECS);
        let url = match database_url {
            Some(u) => u,
            None => String::from_str(DEFAULT_DATABASE_URL),
        };
        AppConfig { port: p as u16, database_url: url, poll_interval_secs: interval }
    }
}

} // verus!

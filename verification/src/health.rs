//! Health reports: a simple one, and one with a time stamp and a response
//! time per dependency.

use vstd::prelude::*;

verus! {

/// The state of the dependencies in the simple report.
#[derive(Debug)]
pub struct HealthChecks {
    pub database: String,
    pub cache: String,
}

/// The simple health report.
#[derive(Debug)]
pub struct HealthResponse {
    pub status: String,
    pub version: String,
    pub checks: HealthChecks,
}

/// The state of one dependency in the advanced report.
#[derive(Debug)]
pub struct CheckStatus {
    pub status: String,
    pub response_time_ms: u64,
}

/// The state of the dependencies in the advanced report.
#[derive(Debug)]
pub struct AdvancedHealthChecks {
    pub database: CheckStatus,
    pub cache: CheckStatus,
}

/// The advanced health report.
#[derive(Debug)]
pub struct AdvancedHealthResponse {
    pub status: String,
    pub version: String,
    pub timestamp: String,
    pub checks: AdvancedHealthChecks,
}

/// The text at the root of the health service.
pub fn index() -> (r: &'static str)
    ensures
        r@ == "Phase 11 Features Demo"@,
{
    "Phase 11 Features Demo"
}

/// The text that the slow endpoint answers with once its delay is over.
pub fn slow_endpoint() -> (r: &'static str)
    ensures
        r@ == "This should timeout"@,
{
    "This should timeout"
}

/// How long the slow endpoint waits before it answers, in seconds.
pub const SLOW_DELAY_SECS: u64 = 35;

/// How long the advanced report waits before it answers, in milliseconds.
pub const ADVANCED_DELAY_MILLIS: u64 = 10;

/// The simple report: everything healthy, version 1.0.0.
pub fn health_endpoint() -> (r: HealthResponse)
    ensures
        r.status@ == "healthy"@,
        r.version@ == "1.0.0"@,
        r.checks.database@ == "healthy"@,
        r.checks.cache@ == "healthy"@,
{
    HealthResponse {
        status: String::from_str("healthy"),
        version: String::from_str("1.0.0"),
        checks: HealthChecks {
            database: String::from_str("healthy"),
            cache: String::from_str("healthy"),
        },
    }
}

/// The advanced report for the moment `timestamp`: everything healthy,
/// version 1.0.0, the database answering in 10 ms and the cache in 5 ms.
pub fn health_advanced(timestamp: String) -> (r: AdvancedHealthResponse)
    ensures
        r.status@ == "healthy"@,
        r.version@ == "1.0.0"@,
        r.timestamp == timestamp,
        r.checks.database.status@ == "healthy"@,
        r.checks.database.response_time_ms == 10,
        r.checks.cache.status@ == "healthy"@,
        r.checks.cache.response_time_ms == 5,
{
    AdvancedHealthResponse {
        status: String::from_str("healthy"),
        version: String::from_str("1.0.0"),
        timestamp,
        checks: AdvancedHealthChecks {
            database: CheckStatus { status: String::from_str("healthy"), response_time_ms: 10 },
            cache: CheckStatus { status: String::from_str("healthy"), response_time_ms: 5 },
        },
    }
}

} // verus!

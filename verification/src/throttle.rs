//! The answers of the throttling service. Each carries the moment it was
//! made at, in whole seconds since the epoch, which the caller reads from
//! the clock.

use vstd::prelude::*;

verus! {

/// An answer with a message and the moment it was made at.
#[derive(Debug)]
pub struct ApiResponse {
    pub message: String,
    pub timestamp: u64,
}

/// The state of the service, and how many requests are left where a limit
/// applies.
#[derive(Debug)]
pub struct StatusResponse {
    pub status: String,
    pub requests_remaining: Option<u32>,
}

/// The answer of the strictly limited endpoint at the moment `now_secs`.
pub fn limited_endpoint(now_secs: u64) -> (r: ApiResponse)
    ensures
        r.message@ == "This endpoint has strict rate limits"@,
        r.timestamp == now_secs,
{
    ApiResponse {
        message: String::from_str("This endpoint has strict rate limits"),
        timestamp: now_secs,
    }
}

/// The answer of the loosely limited endpoint at the moment `now_secs`.
pub fn relaxed_endpoint(now_secs: u64) -> (r: ApiResponse)
    ensures
        r.message@ == "This endpoint has relaxed rate limits"@,
        r.timestamp == now_secs,
{
    ApiResponse {
        message: String::from_str("This endpoint has relaxed rate limits"),
        timestamp: now_secs,
    }
}

/// The state of the service: healthy, with no limit that could run out.
pub fn health() -> (r: StatusResponse)
    ensures
        r.status@ == "healthy"@,
        r.requests_remaining.is_none(),
{
    StatusResponse { status: String::from_str("healthy"), requests_remaining: None }
}

/// The answer at the root of the service at the moment `now_secs`.
pub fn index(now_secs: u64) -> (r: ApiResponse)
    ensures
        r.message@
            == "Rate Limiting Demo - Try /api/limited (5 req/min) or /api/relaxed (100 req/min)"@,
        r.timestamp == now_secs,
{
    ApiResponse {
        message: String::from_str(
            "Rate Limiting Demo - Try /api/limited (5 req/min) or /api/relaxed (100 req/min)",
        ),
        timestamp: now_secs,
    }
}

} // verus!

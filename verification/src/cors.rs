//! The cross-origin service: its one greeting and the limits it is set up
//! with.

use vstd::prelude::*;

verus! {

/// The fixed greeting of the cross-origin service.
pub fn hello() -> (r: &'static str)
    ensures
        r@ == "Hello from CORS-enabled API!"@,
{
    "Hello from CORS-enabled API!"
}

/// How many requests the cross-origin service admits per window.
pub const RATE_LIMIT_REQUESTS: u32 = 100;

/// The length of that window, in seconds.
pub const RATE_LIMIT_WINDOW_SECS: u64 = 60;

} // verus!

//! Wall-clock reading, modelled as seconds since the Unix epoch.
//!
//! Every time-dependent decision in this crate is made by a function that
//! takes the current time as an explicit argument; this module only supplies
//! that argument to the convenience entry points.

use vstd::prelude::*;

verus! {

/// Every timestamp chrono can represent lies strictly within this many
/// seconds of the epoch: its dates span about 262,000 years either side of
/// the common era, under 2^45 seconds away.
pub const TIMESTAMP_BOUND: i64 = 0x2000_0000_0000;

/// Relies on `chrono::Utc::now`: the current time as seconds since the Unix
/// epoch. Nothing is assumed about the value beyond chrono's documented
/// representable range (about years -262144 to 262142), which keeps every
/// clock reading strictly within `TIMESTAMP_BOUND` of zero.
#[verifier::external_body]
pub(crate) fn now_timestamp() -> (r: i64)
    ensures
        -TIMESTAMP_BOUND < r < TIMESTAMP_BOUND,
{
    chrono::Utc::now().timestamp()
}

} // verus!

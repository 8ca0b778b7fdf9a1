//! The time of day, in microseconds since the Unix epoch.

use vstd::prelude::*;

verus! {

/// Calls `chrono::Utc::now` and hands back `timestamp_micros` of the result.
/// The value differs from call to call; it is never negative, because
/// `Utc::now` gives no time before the Unix epoch.
#[verifier::external_body]
pub(crate) fn utc_now_micros() -> (now: i64)
    ensures
        now >= 0,
{
    chrono::Utc::now().timestamp_micros()
}

} // verus!

//! The current time, as microseconds since the Unix epoch (UTC).
use vstd::prelude::*;

verus! {

/// The current time in microseconds since the Unix epoch, UTC
/// (`chrono::Utc::now`). The value is the time, of which nothing else is
/// known: the crate panics on a system clock set before the Unix epoch, so a
/// time that it gives is not before it.
#[verifier::external_body]
pub(crate) fn now_micros() -> (r: i64)
    ensures
        r >= 0,
{
    chrono::Utc::now().timestamp_micros()
}

} // verus!

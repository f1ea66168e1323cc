//! The current time.
use vstd::prelude::*;

verus! {

/// The last second that `chrono` can represent (the end of the year
/// 262142, UTC), as a timestamp.
pub const MAX_TIMESTAMP: i64 = 8210266876799;

/// The current UTC time as a timestamp in seconds (`chrono::Utc::now`).
/// Which time it is is not known in advance; `Utc::now` refuses a clock
/// before the epoch and builds a `DateTime<Utc>`, so the time lies between
/// the epoch and `MAX_TIMESTAMP`.
#[verifier::external_body]
pub(crate) fn current_timestamp() -> (r: i64)
    ensures
        0 <= r <= MAX_TIMESTAMP,
{
    chrono::Utc::now().timestamp()
}

} // verus!

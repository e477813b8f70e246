//! The wall clock.

use vstd::prelude::*;

verus! {

/// `time::OffsetDateTime::now_utc`, then `unix_timestamp`: the seconds since
/// the epoch by the system clock. Nothing is known of the value.
#[verifier::external_body]
pub(crate) fn unix_now() -> (now: i64) {
    time::OffsetDateTime::now_utc().unix_timestamp()
}

} // verus!

//! The wall clock, in whole seconds.

use vstd::prelude::*;

verus! {

/// Seconds since the Unix epoch, as `time::OffsetDateTime::now_utc` followed by
/// `unix_timestamp` reports them.
///
/// Nothing is claimed of the value: two calls may differ, and a later call may
/// give a smaller value than an earlier one.
#[verifier::external_body]
pub(crate) fn unix_now() -> (now: i64) {
    time::OffsetDateTime::now_utc().unix_timestamp()
}

/// The second `span` seconds after `now`, held to the range of `i64`.
pub open spec fn instant_after(now: i64, span: i64) -> i64 {
    if now + span > i64::MAX {
        i64::MAX
    } else if now + span < i64::MIN {
        i64::MIN
    } else {
        (now + span) as i64
    }
}

/// Adds `span` seconds to `now`, saturating at the ends of `i64`.
pub fn add_seconds(now: i64, span: i64) -> (at: i64)
    ensures
        at == instant_after(now, span),
{
    match now.checked_add(span) {
        Some(at) => at,
        None => if span > 0 { i64::MAX } else { i64::MIN },
    }
}

} // verus!

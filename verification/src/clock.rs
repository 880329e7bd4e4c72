//! The clock source used when a response is built without an explicit
//! transmit timestamp.

use vstd::prelude::*;

use crate::timestamp::{NtpTimestamp, NTP_ERA_MAX_UNIX_SECS, NTP_UNIX_OFFSET};

verus! {

/// Relies on chrono's `Utc::now`, read through `DateTime::timestamp` and
/// `DateTime::timestamp_subsec_nanos`: the current instant as whole seconds
/// since the Unix epoch and a nanosecond remainder, which chrono keeps
/// below two seconds to leave room for a leap second.
#[verifier::external_body]
fn now_unix() -> (r: (i64, u32))
    ensures
        r.1 < 2000000000,
{
    let now = chrono::Utc::now();
    (now.timestamp(), now.timestamp_subsec_nanos())
}

/// The current instant as a well-formed timestamp: a leap-second remainder
/// is folded into the next second, and an instant outside the representable
/// NTP era is clamped to the era's nearest end.
pub fn now_timestamp() -> (r: NtpTimestamp)
    ensures
        r.wf(),
{
    let (read_secs, read_nanos) = now_unix();
    let mut secs: i64 = read_secs;
    let mut nanos: u32 = read_nanos;
    if nanos >= 1000000000 {
        nanos = nanos - 1000000000;
        if secs < NTP_ERA_MAX_UNIX_SECS {
            secs = secs + 1;
        }
    }
    if secs > NTP_ERA_MAX_UNIX_SECS {
        secs = NTP_ERA_MAX_UNIX_SECS;
    }
    if secs < -NTP_UNIX_OFFSET {
        secs = -NTP_UNIX_OFFSET;
    }
    NtpTimestamp { secs, nanos }
}

} // verus!

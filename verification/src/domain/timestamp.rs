//! The instant at which a subscription was requested.

use vstd::prelude::*;

verus! {

/// An instant in UTC: whole seconds since the Unix epoch and the nanoseconds
/// into that second.
#[derive(Clone, Copy, Debug, PartialEq, Eq, Structural)]
pub struct Timestamp {
    pub seconds: i64,
    pub nanoseconds: u32,
}

/// The nanoseconds in one second.
pub const NANOSECONDS_PER_SECOND: u32 = 1_000_000_000;

/// Calls `chrono::Utc::now` and reads the instant with `DateTime::timestamp`
/// and `DateTime::timestamp_subsec_nanos`. `Utc::now` makes the instant from
/// the distance of the system clock to the Unix epoch, whose part below the
/// second is less than a second: the instant is never inside a leap second,
/// where the nanoseconds would run on to two seconds. Which second it is, is
/// the clock's to say, and nothing is claimed of it.
#[verifier::external_body]
fn utc_now() -> (now: Timestamp)
    ensures
        now.nanoseconds < NANOSECONDS_PER_SECOND,
{
    let now = chrono::Utc::now();
    Timestamp { seconds: now.timestamp(), nanoseconds: now.timestamp_subsec_nanos() }
}

impl Timestamp {
    /// The instant with the given parts.
    pub fn new(seconds: i64, nanoseconds: u32) -> (at: Timestamp)
        ensures
            at.seconds == seconds,
            at.nanoseconds == nanoseconds,
    {
        Timestamp { seconds, nanoseconds }
    }

    /// The current instant, as the system clock has it: some second, and
    /// nanoseconds that stay within it.
    pub fn now() -> (now: Timestamp)
        ensures
            now.nanoseconds < NANOSECONDS_PER_SECOND,
    {
        utc_now()
    }
}

} // verus!

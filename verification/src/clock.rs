//! Points in time, and the wall clock.

use vstd::prelude::*;

verus! {

/// A point in time: whole seconds since the Unix epoch and the nanoseconds
/// within that second.
#[derive(Clone, Copy, Debug, PartialEq, Eq)]
pub struct Timestamp {
    pub seconds: i64,
    pub nanos: u32,
}

/// Seconds in a day.
pub const DAY_SECONDS: i64 = 86400;

/// How many days a session lives after the login that opened it.
pub const SESSION_LIFETIME_DAYS: i64 = 7;

impl Timestamp {
    /// `self` is later than `other`.
    pub open spec fn spec_is_after(self, other: Timestamp) -> bool {
        self.seconds > other.seconds || (self.seconds == other.seconds && self.nanos > other.nanos)
    }

    /// The point in time `days` days later, where the span in seconds and
    /// the result both fit 64 bits.
    pub open spec fn spec_plus_days(self, days: i64) -> Option<Timestamp> {
        if i64::MIN <= days * DAY_SECONDS <= i64::MAX && i64::MIN <= self.seconds + days
            * DAY_SECONDS <= i64::MAX {
            Some(Timestamp { seconds: (self.seconds + days * DAY_SECONDS) as i64, nanos: self.nanos })
        } else {
            None
        }
    }

    /// Whether this point in time is later than another.
    pub fn is_after(self, other: Timestamp) -> (later: bool)
        ensures
            later == self.spec_is_after(other),
    {
        self.seconds > other.seconds || (self.seconds == other.seconds && self.nanos > other.nanos)
    }

    /// This point in time moved by a number of days.
    pub fn plus_days(self, days: i64) -> (later: Option<Timestamp>)
        ensures
            later == self.spec_plus_days(days),
    {
        match days.checked_mul(DAY_SECONDS) {
            Some(span) => match self.seconds.checked_add(span) {
                Some(seconds) => Some(Timestamp { seconds, nanos: self.nanos }),
                None => None,
            },
            None => None,
        }
    }
}

/// When a session that is opened at `now` expires.
pub fn session_expires_at(now: Timestamp) -> (expiry: Option<Timestamp>)
    ensures
        expiry == now.spec_plus_days(SESSION_LIFETIME_DAYS),
{
    now.plus_days(SESSION_LIFETIME_DAYS)
}

/// Whether a session that expires at `expires_at` is still good at `now`.
pub fn session_is_live(expires_at: Timestamp, now: Timestamp) -> (live: bool)
    ensures
        live == expires_at.spec_is_after(now),
{
    expires_at.is_after(now)
}

/// `chrono::Utc::now`, read off as seconds and nanoseconds. The result is
/// whatever the machine's clock says, so nothing is claimed of it. The
/// outside function gives up only on a clock that stands before 1970.
#[verifier::external_body]
pub(crate) fn current_time() -> (now: Timestamp)
{
    let now = chrono::Utc::now();
    Timestamp { seconds: now.timestamp(), nanos: now.timestamp_subsec_nanos() }
}

} // verus!

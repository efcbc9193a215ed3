//! Points in time, as whole seconds since the Unix epoch.

use std::cmp::Ordering;
use vstd::prelude::*;
use vstd::std_specs::cmp::PartialOrdSpecImpl;

verus! {

/// A point in time: the number of seconds since 1970-01-01 00:00:00 UTC, which
/// is also how it is stored in the database.
#[derive(Clone, Copy, Debug, PartialEq, Eq, Structural, Ord)]
pub struct TimeStamp {
    stamp: i64,
}

impl View for TimeStamp {
    type V = i64;

    /// The seconds since the epoch.
    closed spec fn view(&self) -> i64 {
        self.stamp
    }
}

/// `chrono::Utc::now` followed by `chrono::DateTime::timestamp`: the seconds
/// that the system clock counts since the Unix epoch. `now` reads the clock as a
/// duration since the epoch, so the count is not negative; it panics on a
/// machine whose clock is set before 1970.
#[verifier::external_body]
fn unix_seconds() -> (seconds: i64)
    ensures
        seconds >= 0,
{
    chrono::Utc::now().timestamp()
}

impl TimeStamp {
    /// The point in time `seconds` after the epoch.
    pub closed spec fn spec_from_seconds(seconds: i64) -> TimeStamp {
        TimeStamp { stamp: seconds }
    }

    /// The point in time `seconds` after the epoch.
    pub fn from_seconds(seconds: i64) -> (r: TimeStamp)
        ensures
            r == Self::spec_from_seconds(seconds),
            r@ == seconds,
    {
        TimeStamp { stamp: seconds }
    }

    /// The seconds since the epoch.
    pub fn seconds(&self) -> (seconds: i64)
        ensures
            seconds == self@,
    {
        self.stamp
    }

    /// The present moment by the system clock.
    pub fn now() -> (r: TimeStamp)
        ensures
            r@ >= 0,
    {
        TimeStamp::from_seconds(unix_seconds())
    }

    /// A time stamp is its count of seconds.
    pub proof fn lemma_identified_by_seconds(a: TimeStamp, b: TimeStamp)
        ensures
            a == b <==> a@ == b@,
            a == Self::spec_from_seconds(a@),
    {
    }
}

impl PartialOrd for TimeStamp {
    fn partial_cmp(&self, other: &Self) -> (r: Option<Ordering>) {
        if self.stamp < other.stamp {
            Some(Ordering::Less)
        } else if self.stamp == other.stamp {
            Some(Ordering::Equal)
        } else {
            Some(Ordering::Greater)
        }
    }
}

impl PartialOrdSpecImpl for TimeStamp {
    open spec fn obeys_partial_cmp_spec() -> bool {
        true
    }

    /// Earlier is less.
    open spec fn partial_cmp_spec(&self, other: &Self) -> Option<Ordering> {
        if self@ < other@ {
            Some(Ordering::Less)
        } else if self@ == other@ {
            Some(Ordering::Equal)
        } else {
            Some(Ordering::Greater)
        }
    }
}

} // verus!

use chrono::DateTime;
use chrono::Utc;
use vstd::prelude::*;

verus! {

/// The earliest instant, in milliseconds since the Unix epoch, that a
/// `chrono::DateTime<Utc>` can hold (January 1 of the year -262143, 00:00 UTC).
pub const MIN_TIMESTAMP_MILLIS: i64 = -8334601228800000i64;

/// The latest instant, in milliseconds since the Unix epoch, that a
/// `chrono::DateTime<Utc>` can hold (December 31 of the year 262142, 23:59:59.999 UTC).
pub const MAX_TIMESTAMP_MILLIS: i64 = 8210266876799999i64;

/// Whether `ms` milliseconds since the epoch is an instant that chrono can represent.
pub open spec fn millis_in_range(ms: int) -> bool {
    MIN_TIMESTAMP_MILLIS <= ms <= MAX_TIMESTAMP_MILLIS
}

/// Calls `DateTime::<Utc>::from_timestamp_millis` and reads `timestamp` of what it
/// made. chrono's source returns `None` exactly outside the range of its dates and
/// otherwise the second `ms.div_euclid(1000)`; the contract says so.
#[verifier::external_body]
fn chrono_timestamp_from_millis(ms: i64) -> (r: Option<i64>)
    ensures
        r is Some <==> millis_in_range(ms as int),
        r matches Some(secs) ==> secs == ms as int / 1000,
{
    DateTime::<Utc>::from_timestamp_millis(ms).map(|dt| dt.timestamp())
}

/// Calls `Utc::now` and reads `timestamp_millis` of it. The instant depends on the
/// clock; the contract states only that it lies within chrono's range, as every
/// `DateTime<Utc>` does, and not before the epoch: chrono panics when the system
/// clock reads a time before 1970, which no argument can rule out.
#[verifier::external_body]
fn chrono_now_millis() -> (r: i64)
    ensures
        millis_in_range(r as int),
        r >= 0,
{
    Utc::now().timestamp_millis()
}

/// An instant in UTC with millisecond precision, within the range of chrono's dates.
#[derive(Clone, Copy, PartialEq, Eq, Debug)]
pub struct UtcDateTime {
    millis: i64,
    secs: i64,
}

impl View for UtcDateTime {
    type V = int;

    /// Milliseconds since the Unix epoch.
    closed spec fn view(&self) -> int {
        self.millis as int
    }
}

impl UtcDateTime {
    #[verifier::type_invariant]
    spec fn inv(self) -> bool {
        &&& millis_in_range(self.millis as int)
        &&& self.secs == self.millis as int / 1000
    }

    /// The instant `millis` milliseconds after the Unix epoch, or `None` where chrono
    /// cannot represent it.
    pub fn from_timestamp_millis(millis: i64) -> (r: Option<UtcDateTime>)
        ensures
            r is Some <==> millis_in_range(millis as int),
            r matches Some(dt) ==> dt@ == millis as int,
    {
        match chrono_timestamp_from_millis(millis) {
            Some(secs) => Some(UtcDateTime { millis, secs }),
            None => None,
        }
    }

    /// The current instant, read from the system clock.
    pub fn now() -> (dt: UtcDateTime)
        ensures
            millis_in_range(dt@),
            dt@ >= 0,
    {
        let millis = chrono_now_millis();
        match chrono_timestamp_from_millis(millis) {
            Some(secs) => UtcDateTime { millis, secs },
            None => {
                proof {
                    assert(false);
                }
                UtcDateTime { millis: 0, secs: 0 }
            },
        }
    }

    /// Milliseconds since the Unix epoch.
    pub fn timestamp_millis(&self) -> (r: i64)
        ensures
            r as int == self@,
            millis_in_range(r as int),
    {
        proof {
            use_type_invariant(self);
        }
        self.millis
    }

    /// Whole seconds since the Unix epoch, rounded towards the past.
    pub fn timestamp(&self) -> (r: i64)
        ensures
            r as int == self@ / 1000,
    {
        proof {
            use_type_invariant(self);
        }
        self.secs
    }
}

} // verus!

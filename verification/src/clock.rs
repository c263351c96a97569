//! Points in time, as the rest of the library takes them.

use vstd::prelude::*;

verus! {

/// How long a game's saves must have been left alone before an automatic save
/// is made, in milliseconds.
pub const QUIET_PERIOD: i64 = 5000;

/// For how long after a restore changes of that game's saves are overlooked,
/// in milliseconds.
pub const IGNORE_WINDOW: i64 = 5000;

/// A point in time, with the two ways in which it is written out.
#[derive(Debug, PartialEq, Eq)]
pub struct Moment {
    /// Milliseconds since the Unix epoch.
    pub millis: i64,
    /// The time of day as it stands before an entry of the event log.
    pub clock: String,
    /// The date and time as they stand in the name of an automatic save.
    pub stamp: String,
}

/// The ghost value of a [`Moment`].
pub struct MomentView {
    pub millis: i64,
    pub clock: Seq<char>,
    pub stamp: Seq<char>,
}

impl DeepView for Moment {
    type V = MomentView;

    open spec fn deep_view(&self) -> MomentView {
        MomentView { millis: self.millis, clock: self.clock@, stamp: self.stamp@ }
    }
}

/// The pattern of the time of day before an entry of the event log.
pub open spec fn clock_pattern() -> Seq<char> {
    "%H:%M:%S"@
}

/// The pattern of the date and time in the name of an automatic save.
pub open spec fn stamp_pattern() -> Seq<char> {
    "%Y-%m-%d_%H-%M-%S"@
}

/// The milliseconds since the Unix epoch on the system's clock.
///
/// Trusted: `chrono::Local::now` and `DateTime::timestamp_millis`. Nothing is
/// claimed of the result, which differs from call to call. `now` panics
/// where the system's clock stands before 1970, which nothing here can rule
/// out.
#[verifier::external_body]
fn system_millis() -> i64 {
    chrono::Local::now().timestamp_millis()
}

/// The system's local time written after `pattern`.
///
/// Trusted: `chrono::Local::now`, `DateTime::format` and the `to_string` of
/// what it returns, which panics on a pattern with a specifier that chrono
/// does not know; the two patterns admitted here hold none but `%Y`, `%m`,
/// `%d`, `%H`, `%M` and `%S`. Nothing is claimed of the result, which depends
/// on the clock and the time zone. `now` panics where the system's clock
/// stands before 1970, which nothing here can rule out.
#[verifier::external_body]
fn local_text(pattern: &str) -> String
    requires
        pattern@ == clock_pattern() || pattern@ == stamp_pattern(),
{
    chrono::Local::now().format(pattern).to_string()
}

impl Moment {
    /// The point in time `millis`, written out as `clock` and `stamp`.
    pub fn new(millis: i64, clock: String, stamp: String) -> (moment: Moment)
        ensures
            moment.millis == millis,
            moment.clock == clock,
            moment.stamp == stamp,
    {
        Moment { millis, clock, stamp }
    }

    /// The present, read from the system's clock in local time.
    pub fn now() -> Moment {
        let millis = system_millis();
        let clock = local_text("%H:%M:%S");
        let stamp = local_text("%Y-%m-%d_%H-%M-%S");
        Moment { millis, clock, stamp }
    }
}

} // verus!

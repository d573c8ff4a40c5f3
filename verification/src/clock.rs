//! The clock: an instant, the offset under which it is shown, and its text.

use vstd::prelude::*;

use chrono::{DateTime, FixedOffset, Local, Utc};

verus! {

/// The earliest instant that chrono's `DateTime` holds, in seconds since the
/// Unix epoch: midnight before 1 January of the year -262143.
pub const MIN_UTC_SECONDS: i64 = -8_334_601_228_800;

/// The latest whole second that chrono's `DateTime` holds, in seconds since
/// the Unix epoch: 23:59:59 on 31 December of the year 262142.
pub const MAX_UTC_SECONDS: i64 = 8_210_266_876_799;

/// One day in seconds. An offset from UTC is strictly smaller in magnitude.
pub const DAY_SECONDS: i32 = 86_400;

/// Whether `seconds` counts an instant that chrono can hold.
pub open spec fn instant_in_range(seconds: int) -> bool {
    MIN_UTC_SECONDS <= seconds <= MAX_UTC_SECONDS
}

/// Whether `seconds` is an offset from UTC that chrono can hold: less than a
/// day to either side.
pub open spec fn offset_in_range(seconds: int) -> bool {
    -DAY_SECONDS < seconds < DAY_SECONDS
}

/// The zone in which a logger shows the time.
#[derive(Debug, Clone, Copy, PartialEq, Eq)]
pub enum TimeZone {
    /// The zone of the machine, whatever it is when the clock is read.
    SystemLocal,
    /// A fixed number of seconds to add to UTC, negative west of Greenwich.
    FixedOffset(i32),
}

impl TimeZone {
    /// A fixed offset is usable when it is less than a day; the system's zone
    /// always is.
    pub open spec fn usable(self) -> bool {
        match self {
            TimeZone::SystemLocal => true,
            TimeZone::FixedOffset(seconds) => offset_in_range(seconds as int),
        }
    }

    /// Whether a clock read in this zone may show `offset`.
    pub open spec fn admits(self, offset: int) -> bool {
        match self {
            TimeZone::SystemLocal => offset_in_range(offset),
            TimeZone::FixedOffset(seconds) => offset_in_range(offset) && offset == seconds,
        }
    }

    /// Tells whether a clock can be read in this zone.
    pub fn is_usable(&self) -> (usable: bool)
        ensures
            usable == self.usable(),
    {
        match self {
            TimeZone::SystemLocal => true,
            TimeZone::FixedOffset(seconds) => -DAY_SECONDS < *seconds && *seconds < DAY_SECONDS,
        }
    }
}

/// The text that chrono writes for the instant `utc_seconds` seen under the
/// offset `offset_seconds`, with the pattern `%Y-%m-%d %H:%M:%S`.
pub uninterp spec fn rendered_instant(utc_seconds: int, offset_seconds: int) -> Seq<char>;

/// Writes an instant as date and time of day.
///
/// Calls chrono's `DateTime::from_timestamp`, moves the result into the zone
/// that `FixedOffset::east_opt` makes with `DateTime::with_timezone`, and
/// formats it with `DateTime::format` and the pattern `%Y-%m-%d %H:%M:%S`.
/// The contract claims only that the text depends on the two numbers alone; it
/// gives that text a name and does not say what it holds. Both constructors
/// return `None` outside the ranges required here, so neither `unwrap` fails.
#[verifier::external_body]
fn render_instant(utc_seconds: i64, offset_seconds: i32) -> (text: String)
    requires
        instant_in_range(utc_seconds as int),
        offset_in_range(offset_seconds as int),
    ensures
        text@ == rendered_instant(utc_seconds as int, offset_seconds as int),
{
    let zone = FixedOffset::east_opt(offset_seconds).unwrap();
    let instant = DateTime::from_timestamp(utc_seconds, 0).unwrap();
    instant.with_timezone(&zone).format("%Y-%m-%d %H:%M:%S").to_string()
}

/// Reads the clock in UTC.
///
/// Calls chrono's `Utc::now` and takes the whole seconds of the result with
/// `DateTime::timestamp`. Which instant comes back is not stated: it is the
/// time of the call. The contract claims only that it is one that a
/// `DateTime` can hold, which `Utc::now` builds before it returns.
#[verifier::external_body]
fn utc_now_seconds() -> (seconds: i64)
    ensures
        instant_in_range(seconds as int),
{
    Utc::now().timestamp()
}

/// Reads the clock in the zone of the machine.
///
/// Calls chrono's `Local::now` and takes from the result the whole seconds
/// since the epoch (`DateTime::timestamp`) and the offset then in force
/// (`FixedOffset::local_minus_utc`). Neither is stated: they depend on the
/// time of the call and on how the machine is set up. The contract claims
/// only the ranges that a `DateTime` and a `FixedOffset` keep.
#[verifier::external_body]
fn local_now() -> (reading: (i64, i32))
    ensures
        instant_in_range(reading.0 as int),
        offset_in_range(reading.1 as int),
{
    let instant = Local::now();
    (instant.timestamp(), instant.offset().local_minus_utc())
}

/// One reading of the clock: an instant and the offset under which it is
/// shown.
#[derive(Debug, Clone, Copy, PartialEq, Eq)]
pub struct ClockReading {
    utc_seconds: i64,
    offset_seconds: i32,
}

impl ClockReading {
    #[verifier::type_invariant]
    spec fn in_range(self) -> bool {
        instant_in_range(self.utc_seconds as int) && offset_in_range(self.offset_seconds as int)
    }

    /// The instant, in seconds since the Unix epoch.
    pub closed spec fn instant(self) -> int {
        self.utc_seconds as int
    }

    /// The seconds to add to UTC for the time shown.
    pub closed spec fn offset(self) -> int {
        self.offset_seconds as int
    }

    /// The reading as text: date and time of day under the offset.
    pub open spec fn date_and_hour(self) -> Seq<char> {
        rendered_instant(self.instant(), self.offset())
    }

    /// A reading of the given instant under the given offset, if chrono can
    /// hold both.
    pub fn new(utc_seconds: i64, offset_seconds: i32) -> (reading: Option<ClockReading>)
        ensures
            reading.is_some() <==> instant_in_range(utc_seconds as int) && offset_in_range(
                offset_seconds as int,
            ),
            reading matches Some(r) ==> r.instant() == utc_seconds && r.offset() == offset_seconds,
    {
        if MIN_UTC_SECONDS <= utc_seconds && utc_seconds <= MAX_UTC_SECONDS && -DAY_SECONDS
            < offset_seconds && offset_seconds < DAY_SECONDS {
            Some(ClockReading { utc_seconds, offset_seconds })
        } else {
            None
        }
    }

    /// Reads the clock in `zone`. There is no reading where the zone is a
    /// fixed offset of a day or more.
    pub fn now(zone: TimeZone) -> (reading: Option<ClockReading>)
        ensures
            reading.is_some() <==> zone.usable(),
            reading matches Some(r) ==> zone.admits(r.offset()) && instant_in_range(r.instant()),
    {
        match zone {
            TimeZone::SystemLocal => {
                let reading: (i64, i32) = local_now();
                ClockReading::new(reading.0, reading.1)
            },
            TimeZone::FixedOffset(offset_seconds) => {
                let utc_seconds: i64 = utc_now_seconds();
                ClockReading::new(utc_seconds, offset_seconds)
            },
        }
    }

    /// The instant, in seconds since the Unix epoch.
    pub fn utc_seconds(&self) -> (seconds: i64)
        ensures
            seconds == self.instant(),
            instant_in_range(seconds as int),
    {
        proof {
            use_type_invariant(self);
        }
        self.utc_seconds
    }

    /// The seconds to add to UTC for the time shown.
    pub fn offset_seconds(&self) -> (seconds: i32)
        ensures
            seconds == self.offset(),
            offset_in_range(seconds as int),
    {
        proof {
            use_type_invariant(self);
        }
        self.offset_seconds
    }

    /// The reading as text, such as `2024-03-09 17:05:42`.
    pub fn get_date_and_hour(&self) -> (text: String)
        ensures
            text@ == self.date_and_hour(),
    {
        proof {
            use_type_invariant(self);
        }
        render_instant(self.utc_seconds, self.offset_seconds)
    }
}

} // verus!

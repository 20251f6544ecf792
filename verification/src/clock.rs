//! Time stamps: the current UTC time in RFC 3339 with milliseconds, e.g.
//! `2026-04-24T00:00:00.000Z`.
use vstd::prelude::*;

verus! {

/// The first second of the year 0, in seconds since the Unix epoch.
pub const FIRST_FOUR_DIGIT_YEAR_SECOND: i64 = -62_167_219_200;

/// The last second of the year 9999, in seconds since the Unix epoch.
pub const LAST_FOUR_DIGIT_YEAR_SECOND: i64 = 253_402_300_799;

/// Makes `std::time::SystemTime` usable in signatures; Verus sees nothing
/// inside it.
#[verifier::external_type_specification]
#[verifier::external_body]
pub struct ExSystemTime(std::time::SystemTime);

/// A reading of the system clock: how far it is from the Unix epoch, and on
/// which side.
pub struct ClockReading {
    pub before_epoch: bool,
    pub secs: u64,
    pub nanos: u32,
}

/// Calls `std::time::SystemTime::now`.
///
/// Trusted, and nothing is stated of the result: it is the time of the call.
#[verifier::external_body]
fn system_time_now() -> std::time::SystemTime {
    std::time::SystemTime::now()
}

/// Calls `SystemTime::duration_since` with the Unix epoch; for a time before
/// the epoch the distance is read from the error.
///
/// Trusted: the contract claims only that the sub-second part is below one
/// billion nanoseconds, as std documents for `Duration::subsec_nanos`.
#[verifier::external_body]
fn reading_of(t: std::time::SystemTime) -> (r: ClockReading)
    ensures
        r.nanos < 1_000_000_000,
{
    match t.duration_since(std::time::UNIX_EPOCH) {
        Ok(d) => ClockReading { before_epoch: false, secs: d.as_secs(), nanos: d.subsec_nanos() },
        Err(e) => ClockReading {
            before_epoch: true,
            secs: e.duration().as_secs(),
            nanos: e.duration().subsec_nanos(),
        },
    }
}

/// The time of a reading, in seconds (rounded down) and nanoseconds since the
/// Unix epoch, as an integer.
pub open spec fn reading_time(r: ClockReading) -> (int, int) {
    if !r.before_epoch {
        (r.secs as int, r.nanos as int)
    } else if r.nanos == 0 {
        (-(r.secs as int), 0)
    } else {
        (-(r.secs as int) - 1, 1_000_000_000 - r.nanos)
    }
}

/// The time stamped for a reading: the reading's own time while it lies in
/// the years 0 to 9999; a clock outside those years stamps the nearest end.
pub open spec fn stamped_time(r: ClockReading) -> (i64, u32) {
    let (secs, nanos) = reading_time(r);
    if secs < FIRST_FOUR_DIGIT_YEAR_SECOND {
        (FIRST_FOUR_DIGIT_YEAR_SECOND, 0)
    } else if secs > LAST_FOUR_DIGIT_YEAR_SECOND {
        (LAST_FOUR_DIGIT_YEAR_SECOND, 999_999_999)
    } else {
        (secs as i64, nanos as u32)
    }
}

pub fn stamped_time_of(r: &ClockReading) -> (t: (i64, u32))
    requires
        r.nanos < 1_000_000_000,
    ensures
        t == stamped_time(*r),
{
    if !r.before_epoch {
        if r.secs > LAST_FOUR_DIGIT_YEAR_SECOND as u64 {
            (LAST_FOUR_DIGIT_YEAR_SECOND, 999_999_999)
        } else {
            (r.secs as i64, r.nanos)
        }
    } else {
        // The time is -secs, less one second when there are nanoseconds.
        let limit: u64 = 62_167_219_200;
        if r.secs > limit || (r.secs == limit && r.nanos > 0) {
            (FIRST_FOUR_DIGIT_YEAR_SECOND, 0)
        } else if r.nanos == 0 {
            (-(r.secs as i64), 0)
        } else {
            (-(r.secs as i64) - 1, 1_000_000_000 - r.nanos)
        }
    }
}

pub open spec fn is_ascii_digit(c: char) -> bool {
    '0' <= c && c <= '9'
}

/// `s` has the shape `YYYY-MM-DDTHH:MM:SS.mmmZ`.
pub open spec fn is_rfc3339_millis_utc(s: Seq<char>) -> bool {
    &&& s.len() == 24
    &&& s[4] == '-'
    &&& s[7] == '-'
    &&& s[10] == 'T'
    &&& s[13] == ':'
    &&& s[16] == ':'
    &&& s[19] == '.'
    &&& s[23] == 'Z'
    &&& forall|i: int|
        0 <= i < 23 && i != 4 && i != 7 && i != 10 && i != 13 && i != 16 && i != 19
            ==> is_ascii_digit(#[trigger] s[i])
}

/// What chrono writes for the UTC time `secs` seconds and `nanos`
/// nanoseconds after the Unix epoch, in RFC 3339 with milliseconds and `Z`
/// (`None` where it has no such time).
pub uninterp spec fn rfc3339_millis_utc(secs: i64, nanos: u32) -> Option<Seq<char>>;

/// Calls `chrono::DateTime::<Utc>::from_timestamp` and, on the time it gives,
/// `to_rfc3339_opts` with milliseconds and `Z` for UTC.
///
/// Trusted: the text is named `rfc3339_millis_utc`, a function of the two
/// arguments. For a time in the years 0 to 9999 with fewer than a billion
/// nanoseconds, chrono has the time, and its writer puts out a four-digit
/// year, two-digit month, day, hour, minute and second, a dot, three digits of
/// milliseconds and `Z`; that shape is stated.
#[verifier::external_body]
fn format_rfc3339_millis_utc(secs: i64, nanos: u32) -> (r: Option<String>)
    ensures
        r.deep_view() == rfc3339_millis_utc(secs, nanos),
        FIRST_FOUR_DIGIT_YEAR_SECOND <= secs <= LAST_FOUR_DIGIT_YEAR_SECOND && nanos
            < 1_000_000_000 ==> r is Some && is_rfc3339_millis_utc(r->Some_0@),
{
    match chrono::DateTime::<chrono::Utc>::from_timestamp(secs, nanos) {
        Some(t) => Some(t.to_rfc3339_opts(chrono::SecondsFormat::Millis, true)),
        None => None,
    }
}

/// `s` is the stamp of some reading of the clock.
pub open spec fn is_stamp_of_some_reading(s: Seq<char>) -> bool {
    exists|reading: ClockReading|
        reading.nanos < 1_000_000_000 && rfc3339_millis_utc(
            stamped_time(reading).0,
            stamped_time(reading).1,
        ) == Some(s)
}

/// The current UTC time in RFC 3339 with milliseconds. A clock outside the
/// years 0 to 9999 stamps the nearest end of that span, so every stamp has
/// the same shape.
pub fn current_timestamp() -> (r: String)
    ensures
        is_rfc3339_millis_utc(r@),
        is_stamp_of_some_reading(r@),
{
    let reading = reading_of(system_time_now());
    let (secs, nanos) = stamped_time_of(&reading);
    let text = format_rfc3339_millis_utc(secs, nanos);
    let r = text.unwrap();
    assert(rfc3339_millis_utc(stamped_time(reading).0, stamped_time(reading).1) == Some(r@));
    r
}

} // verus!

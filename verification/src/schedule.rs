//! Times: the start of an event as an instant, and the day to ask events for.
//!
//! An instant is a number of seconds since 1970-01-01T00:00:00Z.

use crate::error::{TimeError, TimeErrorView};
use crate::text::{decimal, push_decimal, push_two_digits, string_of, two_digits};
use vstd::prelude::*;
use vstd::string::StringExecFns;

verus! {

/// The pattern of an event's start: date and time of day with a `T` between
/// them, and a fraction of a second where there is one.
pub const EVENT_TIME_FORMAT: &'static str = "%Y-%m-%dT%H:%M:%S%.f";

/// The instants that a local time of a zone can stand for.
#[derive(Clone, Copy, Debug)]
pub enum LocalInstants {
    /// No instant: the local time falls into a gap.
    Gap,
    /// Exactly one instant.
    Single(i64),
    /// Two instants: the local time falls into a fold.
    Fold(i64, i64),
}

/// Names whether `chrono_tz::Tz::from_str` accepts a text: whether it is the
/// name of a zone of the IANA database that chrono-tz carries.
pub uninterp spec fn zone_known(name: Seq<char>) -> bool;

/// Names whether `chrono::NaiveDateTime::parse_from_str` reads a text as a
/// date and time in the given pattern.
pub uninterp spec fn civil_time_known(text: Seq<char>, format: Seq<char>) -> bool;

/// Names what `chrono::TimeZone::from_local_datetime` returns for the zone of
/// that name and the local time that the text states in the given pattern,
/// each instant in seconds.
pub uninterp spec fn local_instants(
    zone: Seq<char>,
    text: Seq<char>,
    format: Seq<char>,
) -> LocalInstants;

/// Names what `chrono::DateTime::parse_from_rfc3339` reads from a text, as an
/// instant in seconds; `None` where it reads nothing.
pub uninterp spec fn rfc3339_instant(text: Seq<char>) -> Option<i64>;

/// Names the date on which an instant falls in the zone of that name, as
/// `chrono::TimeZone::timestamp_opt` and `chrono::Datelike` tell it: year,
/// month and day. `None` where chrono cannot tell the instant.
pub uninterp spec fn zone_date(zone: Seq<char>, instant: i64) -> Option<(i32, u32, u32)>;

/// Whether `name` is the name of a zone, by `chrono_tz::Tz::from_str`.
#[verifier::external_body]
fn zone_is_known(name: &str) -> (known: bool)
    ensures
        known == zone_known(name@),
{
    name.parse::<chrono_tz::Tz>().is_ok()
}

/// Whether `text` states a date and time in the pattern `format`, by
/// `chrono::NaiveDateTime::parse_from_str`.
#[verifier::external_body]
fn civil_time_is_known(text: &str, format: &str) -> (known: bool)
    ensures
        known == civil_time_known(text@, format@),
{
    chrono::NaiveDateTime::parse_from_str(text, format).is_ok()
}

/// The instants of a local time in a zone, by
/// `chrono::TimeZone::from_local_datetime` on the `Tz` of chrono-tz. The zone
/// and the local time come as text and are read by the two calls that the
/// preconditions speak of.
#[verifier::external_body]
fn resolve_local_time(zone: &str, text: &str, format: &str) -> (r: LocalInstants)
    requires
        zone_known(zone@),
        civil_time_known(text@, format@),
    ensures
        r == local_instants(zone@, text@, format@),
{
    let tz: chrono_tz::Tz = zone.parse().unwrap();
    let local = chrono::NaiveDateTime::parse_from_str(text, format).unwrap();
    match chrono::TimeZone::from_local_datetime(&tz, &local) {
        chrono::LocalResult::None => LocalInstants::Gap,
        chrono::LocalResult::Single(t) => LocalInstants::Single(t.timestamp()),
        chrono::LocalResult::Ambiguous(a, b) => LocalInstants::Fold(a.timestamp(), b.timestamp()),
    }
}

/// The instant that an RFC 3339 timestamp states, by
/// `chrono::DateTime::parse_from_rfc3339`.
#[verifier::external_body]
fn read_rfc3339(text: &str) -> (r: Option<i64>)
    ensures
        r == rfc3339_instant(text@),
{
    chrono::DateTime::parse_from_rfc3339(text).ok().map(|t| t.timestamp())
}

/// The date on which an instant falls in a zone, by
/// `chrono::TimeZone::timestamp_opt`; the month is between 1 and 12 and the
/// day between 1 and 31, as `chrono::Datelike` documents.
#[verifier::external_body]
fn civil_date_at(zone: &str, instant: i64) -> (r: Option<(i32, u32, u32)>)
    requires
        zone_known(zone@),
    ensures
        r == zone_date(zone@, instant),
        r matches Some((_, month, day)) ==> 1 <= month <= 12 && 1 <= day <= 31,
{
    let tz: chrono_tz::Tz = zone.parse().unwrap();
    let at = chrono::TimeZone::timestamp_opt(&tz, instant, 0).single()?;
    Some((chrono::Datelike::year(&at), chrono::Datelike::month(&at), chrono::Datelike::day(&at)))
}

/// The current instant, by `chrono::Local::now`.
#[verifier::external_body]
fn current_instant() -> i64 {
    chrono::Local::now().timestamp()
}

/// The instant at which an event starts: the local time `date_time` in the
/// zone named `zone`, provided that it stands for exactly one instant.
pub open spec fn event_start_spec(date_time: Seq<char>, zone: Seq<char>) -> Result<
    i64,
    TimeErrorView,
> {
    if !zone_known(zone) {
        Err(TimeErrorView::UnknownZone(zone))
    } else if !civil_time_known(date_time, EVENT_TIME_FORMAT@) {
        Err(TimeErrorView::InvalidDateTime(date_time))
    } else {
        match local_instants(zone, date_time, EVENT_TIME_FORMAT@) {
            LocalInstants::Single(t) => Ok(t),
            LocalInstants::Gap => Err(TimeErrorView::NonexistentLocalTime),
            LocalInstants::Fold(_, _) => Err(TimeErrorView::AmbiguousLocalTime),
        }
    }
}

/// The one instant that a resolution gives, or the reason why it gives none.
pub fn single_instant(found: LocalInstants) -> (r: Result<i64, TimeError>)
    ensures
        match found {
            LocalInstants::Single(t) => r == Ok::<i64, TimeError>(t),
            LocalInstants::Gap => r == Err::<i64, TimeError>(TimeError::NonexistentLocalTime),
            LocalInstants::Fold(_, _) => r == Err::<i64, TimeError>(
                TimeError::AmbiguousLocalTime,
            ),
        },
{
    match found {
        LocalInstants::Single(t) => Ok(t),
        LocalInstants::Gap => Err(TimeError::NonexistentLocalTime),
        LocalInstants::Fold(_, _) => Err(TimeError::AmbiguousLocalTime),
    }
}

/// Resolves the start of an event. The zone is read first, then the date and
/// time; a local time that falls into a gap or a fold is an error.
pub fn parse_event_time(date_time: &str, zone: &str) -> (r: Result<i64, TimeError>)
    ensures
        match r {
            Ok(t) => event_start_spec(date_time@, zone@) == Ok::<i64, TimeErrorView>(t),
            Err(e) => event_start_spec(date_time@, zone@) == Err::<i64, TimeErrorView>(e@),
        },
{
    if !zone_is_known(zone) {
        return Err(TimeError::UnknownZone(zone.to_owned()));
    }
    if !civil_time_is_known(date_time, EVENT_TIME_FORMAT) {
        return Err(TimeError::InvalidDateTime(date_time.to_owned()));
    }
    single_instant(resolve_local_time(zone, date_time, EVENT_TIME_FORMAT))
}

/// The instant that the time of an event's last change states.
pub open spec fn last_modified_spec(text: Seq<char>) -> Result<i64, TimeErrorView> {
    match rfc3339_instant(text) {
        Some(t) => Ok(t),
        None => Err(TimeErrorView::InvalidTimestamp(text)),
    }
}

/// Reads the time of an event's last change, an RFC 3339 timestamp.
pub fn parse_last_modified(text: &str) -> (r: Result<i64, TimeError>)
    ensures
        match r {
            Ok(t) => last_modified_spec(text@) == Ok::<i64, TimeErrorView>(t),
            Err(e) => last_modified_spec(text@) == Err::<i64, TimeErrorView>(e@),
        },
{
    match read_rfc3339(text) {
        Some(t) => Ok(t),
        None => Err(TimeError::InvalidTimestamp(text.to_owned())),
    }
}

/// An instant as 32 bits without sign: its seconds modulo 2^32.
pub open spec fn epoch_u32_spec(instant: i64) -> u32 {
    (instant as int % 0x1_0000_0000) as u32
}

/// Truncates an instant to 32 bits without sign. Instants from 1970 up to
/// early 2106 keep their value.
pub fn epoch_u32(instant: i64) -> (r: u32)
    ensures
        r == epoch_u32_spec(instant),
        0 <= instant <= u32::MAX ==> r == instant,
{
    let modulus: i64 = 0x1_0000_0000;
    let rem: i64 = instant % modulus;
    if rem < 0 {
        (rem + modulus) as u32
    } else {
        rem as u32
    }
}

/// A year as text: four digits from 0 to 9999; before and after that a sign
/// and at least four digits.
pub open spec fn year_text(year: int) -> Seq<char> {
    if 0 <= year <= 9999 {
        two_digits(year / 100) + two_digits(year % 100)
    } else if year > 9999 {
        seq!['+'] + decimal(year as nat)
    } else if year >= -9999 {
        seq!['-'] + two_digits((-year) / 100) + two_digits((-year) % 100)
    } else {
        seq!['-'] + decimal((-year) as nat)
    }
}

/// A date as text: year, month and day with hyphens between them.
pub open spec fn date_text(year: int, month: int, day: int) -> Seq<char> {
    year_text(year) + seq!['-'] + two_digits(month) + seq!['-'] + two_digits(day)
}

/// A calendar day: what the feed is asked for.
#[derive(Clone, Copy, Debug)]
pub struct CivilDate {
    pub year: i32,
    pub month: u32,
    pub day: u32,
}

impl CivilDate {
    /// The month is between 1 and 12 and the day between 1 and 31.
    pub open spec fn well_formed(&self) -> bool {
        1 <= self.month <= 12 && 1 <= self.day <= 31
    }

    /// The day of that year, month and number, where the month is between 1
    /// and 12 and the number between 1 and 31.
    pub fn new(year: i32, month: u32, day: u32) -> (r: Option<CivilDate>)
        ensures
            match r {
                Some(date) => date.well_formed() && date.year == year && date.month == month
                    && date.day == day,
                None => !(1 <= month <= 12 && 1 <= day <= 31),
            },
    {
        if 1 <= month && month <= 12 && 1 <= day && day <= 31 {
            Some(CivilDate { year, month, day })
        } else {
            None
        }
    }
}

/// The first and the last second of a day as local times without a zone,
/// in the form that the feed expects.
#[derive(Debug)]
pub struct DayWindow {
    pub start: String,
    pub end: String,
}

/// Appends a year.
fn push_year(out: &mut Vec<char>, year: i32)
    ensures
        final(out)@ == old(out)@ + year_text(year as int),
{
    if 0 <= year && year <= 9999 {
        push_two_digits(out, (year / 100) as u32);
        push_two_digits(out, (year % 100) as u32);
    } else if year > 9999 {
        out.push('+');
        push_decimal(out, year as u64);
    } else {
        let magnitude: i64 = -(year as i64);
        out.push('-');
        if magnitude <= 9999 {
            push_two_digits(out, (magnitude / 100) as u32);
            push_two_digits(out, (magnitude % 100) as u32);
        } else {
            push_decimal(out, magnitude as u64);
        }
    }
}

/// The characters of a date.
fn date_chars(date: &CivilDate) -> (out: Vec<char>)
    requires
        date.well_formed(),
    ensures
        out@ == date_text(date.year as int, date.month as int, date.day as int),
{
    let mut out: Vec<char> = Vec::new();
    push_year(&mut out, date.year);
    out.push('-');
    push_two_digits(&mut out, date.month);
    out.push('-');
    push_two_digits(&mut out, date.day);
    out
}

/// The day to ask for, from its first second to its last.
pub open spec fn day_window_spec(date: CivilDate) -> (Seq<char>, Seq<char>) {
    let day = date_text(date.year as int, date.month as int, date.day as int);
    (day + "T00:00:00"@, day + "T23:59:59"@)
}

/// The window of a day: its first second, 00:00:00, and its last, 23:59:59.
pub fn day_window(date: &CivilDate) -> (w: DayWindow)
    requires
        date.well_formed(),
    ensures
        (w.start@, w.end@) == day_window_spec(*date),
{
    let day = date_chars(date);
    let mut start = string_of(day.as_slice());
    start.append("T00:00:00");
    let mut end = string_of(day.as_slice());
    end.append("T23:59:59");
    DayWindow { start, end }
}

/// The window of the day on which `instant` falls in the zone named `zone`.
pub open spec fn day_window_at_spec(zone: Seq<char>, instant: i64) -> Result<
    (Seq<char>, Seq<char>),
    TimeErrorView,
> {
    if !zone_known(zone) {
        Err(TimeErrorView::UnknownZone(zone))
    } else {
        match zone_date(zone, instant) {
            Some((year, month, day)) => Ok(day_window_spec(CivilDate { year, month, day })),
            None => Err(TimeErrorView::InstantOutOfRange),
        }
    }
}

/// Whether `r` is the window of the day on which `instant` falls in `zone`.
pub open spec fn is_day_window_at(
    zone: Seq<char>,
    instant: i64,
    r: Result<DayWindow, TimeError>,
) -> bool {
    match r {
        Ok(w) => day_window_at_spec(zone, instant) == Ok::<(Seq<char>, Seq<char>), TimeErrorView>(
            (w.start@, w.end@),
        ),
        Err(e) => day_window_at_spec(zone, instant) == Err::<(Seq<char>, Seq<char>), TimeErrorView>(
            e@,
        ),
    }
}

/// The window of the day on which `instant` falls in the zone named `zone`.
pub fn day_window_at(zone: &str, instant: i64) -> (r: Result<DayWindow, TimeError>)
    ensures
        is_day_window_at(zone@, instant, r),
{
    if !zone_is_known(zone) {
        return Err(TimeError::UnknownZone(zone.to_owned()));
    }
    match civil_date_at(zone, instant) {
        Some((year, month, day)) => Ok(day_window(&CivilDate { year, month, day })),
        None => Err(TimeError::InstantOutOfRange),
    }
}

/// The window of the current day in the zone named `zone`. The clock is read
/// at each call.
pub fn day_window_now(zone: &str) -> (r: Result<DayWindow, TimeError>)
    ensures
        exists|instant: i64| is_day_window_at(zone@, instant, r),
{
    let now = current_instant();
    day_window_at(zone, now)
}

/// The path and the start of the query of the feed.
pub const FEED_PATH: &'static str = "/api/v2.0/me/calendarview?startDateTime=";

/// What stands between the two ends of the window in the query.
pub const FEED_END: &'static str = "&endDateTime=";

/// The fields that the feed is asked for.
pub const FEED_SELECT: &'static str = "&$select=Subject,Start,Location,Body,LastModifiedDateTime";

/// The address of the feed for a window.
pub open spec fn feed_url_spec(endpoint: Seq<char>, start: Seq<char>, end: Seq<char>) -> Seq<char> {
    endpoint + FEED_PATH@ + start + FEED_END@ + end + FEED_SELECT@
}

/// The address of the feed of the events of a window.
pub fn feed_url(endpoint: &str, window: &DayWindow) -> (url: String)
    ensures
        url@ == feed_url_spec(endpoint@, window.start@, window.end@),
{
    let mut url = endpoint.to_owned();
    url.append(FEED_PATH);
    url.append(window.start.as_str());
    url.append(FEED_END);
    url.append(window.end.as_str());
    url.append(FEED_SELECT);
    url
}

} // verus!

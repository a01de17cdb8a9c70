//! Calendar times: parsing and rendering them with `chrono` and
//! `chrono-tz`, which this crate calls rather than reimplements.
use vstd::prelude::*;

use crate::models::node::{MAX_RENDERABLE_SECS, MIN_RENDERABLE_SECS, Timestamp};

verus! {

/// A date and time without time zone as plain values: year, month, day,
/// hour, minute, second and nanosecond (the nanosecond passes 999,999,999
/// only within a leap second).
pub type NaiveFields = (i32, u32, u32, u32, u32, u32, u32);

/// What `chrono::NaiveDateTime::parse_from_str(text, fmt)` gives: the date
/// and time as plain values, or the text of its error.
pub uninterp spec fn naive_datetime_parse(text: Seq<char>, fmt: Seq<char>) -> Result<
    NaiveFields,
    Seq<char>,
>;

/// Parses `text` with the strftime-style `fmt` into a date and time
/// without time zone.
///
/// Trusted: calls `chrono::NaiveDateTime::parse_from_str`, takes the parsed
/// value apart with the `Datelike` and `Timelike` getters, and renders its
/// error with `Display`; the outcome depends on `text` and `fmt` alone and
/// is named by [`naive_datetime_parse`].
#[verifier::external_body]
pub fn parse_naive_datetime(text: &str, fmt: &str) -> (r: Result<NaiveFields, String>)
    ensures
        match r {
            Ok(f) => naive_datetime_parse(text@, fmt@) == Ok::<NaiveFields, Seq<char>>(f),
            Err(e) => naive_datetime_parse(text@, fmt@) == Err::<NaiveFields, Seq<char>>(e@),
        },
{
    match chrono::NaiveDateTime::parse_from_str(text, fmt) {
        Ok(d) => Ok((
            chrono::Datelike::year(&d),
            chrono::Datelike::month(&d),
            chrono::Datelike::day(&d),
            chrono::Timelike::hour(&d),
            chrono::Timelike::minute(&d),
            chrono::Timelike::second(&d),
            chrono::Timelike::nanosecond(&d),
        )),
        Err(e) => Err(e.to_string()),
    }
}

/// The instant that a local date and time (as [`parse_naive_datetime`]
/// gives it) denote in the machine's time zone, as seconds since the epoch
/// and nanoseconds past them; `None` when the local time does not exist or
/// is ambiguous there.
///
/// Trusted: builds the `chrono::NaiveDateTime` back with
/// `NaiveDate::from_ymd_opt` and `and_hms_nano_opt`, then calls
/// `and_local_timezone(chrono::Local)`, `MappedLocalTime::single`,
/// `timestamp` and `timestamp_subsec_nanos`. Which instant comes out
/// depends on the machine's time zone, so only what every `DateTime`
/// satisfies is stated: the nanoseconds stay below 2,000,000,000 (a leap
/// second passes 999,999,999) and the seconds within the range `chrono`
/// represents.
#[verifier::external_body]
pub fn local_timestamp(f: &NaiveFields) -> (r: Option<(i64, u32)>)
    ensures
        r matches Some(v) ==> v.1 < 2_000_000_000 && MIN_RENDERABLE_SECS <= v.0
            <= MAX_RENDERABLE_SECS,
{
    let date = chrono::NaiveDate::from_ymd_opt(f.0, f.1, f.2)?;
    let dt = date.and_hms_nano_opt(f.3, f.4, f.5, f.6)?;
    let t = dt.and_local_timezone(chrono::Local).single()?;
    Some((t.timestamp(), t.timestamp_subsec_nanos()))
}

/// What `chrono::DateTime::parse_from_str(text, fmt)` gives: the instant as
/// seconds since the epoch and nanoseconds past them, or the text of its
/// error.
pub uninterp spec fn offset_datetime_parse(text: Seq<char>, fmt: Seq<char>) -> Result<
    (i64, u32),
    Seq<char>,
>;

/// Parses `text`, which carries its UTC offset, with the strftime-style
/// `fmt`, into seconds since the epoch and nanoseconds past them.
///
/// Trusted: calls `chrono::DateTime::parse_from_str`, then `timestamp` and
/// `timestamp_subsec_nanos` on the result, and renders its error with
/// `Display`; the outcome is named by [`offset_datetime_parse`]. As of
/// every `DateTime`, the nanoseconds stay below 2,000,000,000 (a leap
/// second passes 999,999,999) and the seconds within the range `chrono`
/// represents.
#[verifier::external_body]
pub fn parse_offset_datetime(text: &str, fmt: &str) -> (r: Result<(i64, u32), String>)
    ensures
        r matches Ok(v) ==> v.1 < 2_000_000_000 && MIN_RENDERABLE_SECS <= v.0
            <= MAX_RENDERABLE_SECS,
        match r {
            Ok(v) => offset_datetime_parse(text@, fmt@) == Ok::<(i64, u32), Seq<char>>(v),
            Err(e) => offset_datetime_parse(text@, fmt@) == Err::<(i64, u32), Seq<char>>(e@),
        },
{
    chrono::DateTime::parse_from_str(text, fmt).map(
        |dt| (dt.timestamp(), dt.timestamp_subsec_nanos()),
    ).map_err(|e| e.to_string())
}

/// How `chrono` displays the UTC date and time `secs` seconds and `nanos`
/// nanoseconds after the epoch (such as `2024-05-01 10:00:00 UTC`).
pub uninterp spec fn utc_text(secs: i64, nanos: u32) -> Seq<char>;

/// Renders a timestamp as a UTC date and time.
///
/// Trusted: calls `chrono::DateTime::<Utc>::from_timestamp`, which succeeds
/// for every number of seconds in the range `chrono` represents with
/// nanoseconds below 1,000,000,000, and displays the result with
/// `Display`; the text is named by [`utc_text`].
#[verifier::external_body]
pub fn format_utc(secs: i64, nanos: u32) -> (r: String)
    requires
        Timestamp::valid(secs, nanos),
        MIN_RENDERABLE_SECS <= secs <= MAX_RENDERABLE_SECS,
    ensures
        r@ == utc_text(secs, nanos),
{
    chrono::DateTime::from_timestamp(secs, nanos).unwrap().to_string()
}

/// The UTC rendering of a timestamp.
pub open spec fn timestamp_utc_text(t: Timestamp) -> Seq<char> {
    utc_text(t.spec_secs(), t.spec_nanos())
}

/// Renders `t` as a UTC date and time, as `DateTime<Utc>` displays it.
pub fn timestamp_utc(t: &Timestamp) -> (r: String)
    requires
        t.renderable(),
    ensures
        r@ == timestamp_utc_text(*t),
{
    let secs = t.secs();
    let nanos = t.nanos();
    format_utc(secs, nanos)
}

/// Whether `s` holds two ASCII digits from position `i`.
pub open spec fn two_digits(s: Seq<char>, i: int) -> bool {
    crate::numbers::is_digit(s[i]) && crate::numbers::is_digit(s[i + 1])
}

/// The shape `chrono` documents for `%H:%M`: two-digit hours, `:`,
/// two-digit minutes.
pub open spec fn hour_minute_shape(s: Seq<char>) -> bool {
    &&& s.len() == 5
    &&& two_digits(s, 0)
    &&& s[2] == ':'
    &&& two_digits(s, 3)
}

/// The shape `chrono` documents for `%F %T`: a year of at least four
/// characters, then `-MM-DD HH:MM:SS` in two-digit fields.
pub open spec fn date_time_shape(s: Seq<char>) -> bool {
    let n = s.len() as int;
    &&& n >= 19
    &&& s[n - 15] == '-'
    &&& two_digits(s, n - 14)
    &&& s[n - 12] == '-'
    &&& two_digits(s, n - 11)
    &&& s[n - 9] == ' '
    &&& two_digits(s, n - 8)
    &&& s[n - 6] == ':'
    &&& two_digits(s, n - 5)
    &&& s[n - 3] == ':'
    &&& two_digits(s, n - 2)
}

/// Renders an instant in the machine's time zone with `fmt`.
///
/// Trusted: calls `chrono::DateTime::<Utc>::from_timestamp`, which succeeds
/// for every number of seconds in the range `chrono` represents with
/// nanoseconds below 1,000,000,000, then `with_timezone(&chrono::Local)` and
/// `format(fmt).to_string()`; `fmt` is one of the two formats this crate
/// uses. Which date and time the text shows depends on the machine's time
/// zone; only the shape `chrono` documents for each format is stated
/// (`%H`, `%M`, `%S`, `%m`, `%d` zero-padded to two digits, `%Y` to at
/// least four characters).
#[verifier::external_body]
pub(crate) fn format_local(secs: i64, nanos: u32, fmt: &str) -> (r: String)
    requires
        Timestamp::valid(secs, nanos),
        MIN_RENDERABLE_SECS <= secs <= MAX_RENDERABLE_SECS,
        fmt@ == "%H:%M"@ || fmt@ == "%F %T"@,
    ensures
        fmt@ == "%H:%M"@ ==> hour_minute_shape(r@),
        fmt@ == "%F %T"@ ==> date_time_shape(r@),
{
    chrono::DateTime::from_timestamp(secs, nanos).unwrap().with_timezone(&chrono::Local).format(
        fmt,
    ).to_string()
}

/// Renders `t` in the machine's time zone with `fmt`.
pub(crate) fn timestamp_local(t: &Timestamp, fmt: &str) -> (r: String)
    requires
        t.renderable(),
        fmt@ == "%H:%M"@ || fmt@ == "%F %T"@,
    ensures
        fmt@ == "%H:%M"@ ==> hour_minute_shape(r@),
        fmt@ == "%F %T"@ ==> date_time_shape(r@),
{
    let secs = t.secs();
    let nanos = t.nanos();
    format_local(secs, nanos, fmt)
}

/// Whether `zone` names a time zone of the `chrono-tz` database (an IANA
/// name such as `Europe/Paris`), as `Tz::from_str` decides it.
pub uninterp spec fn known_zone(zone: Seq<char>) -> bool;

/// How `chrono-tz` renders, in the time zone named `zone`, the instant
/// `secs`/`nanos` with the strftime-style `fmt`.
pub uninterp spec fn zoned_text(zone: Seq<char>, secs: i64, nanos: u32, fmt: Seq<char>) -> Seq<char>;

/// Renders an instant in the time zone named `zone`; `None` when `zone`
/// names no known time zone.
///
/// Trusted: parses `zone` with `Tz::from_str` of `chrono-tz` (an error gives
/// `None`; whether it succeeds depends on `zone` alone and is named
/// [`known_zone`]), converts with `DateTime::with_timezone` and renders with
/// `format(fmt).to_string()`; `fmt` is one of the two formats this crate
/// uses, which `chrono` renders without error. The text is named
/// [`zoned_text`]; the zone database is compiled into `chrono-tz`.
#[verifier::external_body]
pub fn format_in_zone(zone: &str, secs: i64, nanos: u32, fmt: &str) -> (r: Option<String>)
    requires
        Timestamp::valid(secs, nanos),
        MIN_RENDERABLE_SECS <= secs <= MAX_RENDERABLE_SECS,
        fmt@ == "%H:%M"@ || fmt@ == "%F %T"@,
    ensures
        r is Some <==> known_zone(zone@),
        r matches Some(s) ==> s@ == zoned_text(zone@, secs, nanos, fmt@),
{
    zone.parse::<chrono_tz::Tz>().ok().map(
        |tz|
            chrono::DateTime::from_timestamp(secs, nanos).unwrap().with_timezone(&tz).format(
                fmt,
            ).to_string(),
    )
}

/// The rendering of `t` in the time zone `zone` with `fmt`.
pub open spec fn timestamp_zoned_text(zone: Seq<char>, t: Timestamp, fmt: Seq<char>) -> Seq<char> {
    zoned_text(zone, t.spec_secs(), t.spec_nanos(), fmt)
}

/// Renders `t` in the known time zone `zone` with `fmt`.
pub fn timestamp_in_zone(zone: &str, t: &Timestamp, fmt: &str) -> (r: String)
    requires
        known_zone(zone@),
        t.renderable(),
        fmt@ == "%H:%M"@ || fmt@ == "%F %T"@,
    ensures
        r@ == timestamp_zoned_text(zone@, *t, fmt@),
{
    let secs = t.secs();
    let nanos = t.nanos();
    match format_in_zone(zone, secs, nanos, fmt) {
        Some(s) => s,
        None => String::new(),
    }
}

/// Whether `zone` names a known time zone.
pub fn is_known_zone(zone: &str) -> (r: bool)
    ensures
        r == known_zone(zone@),
{
    format_in_zone(zone, 0, 0, "%F %T").is_some()
}

/// A time zone of the `chrono-tz` database, known by its name.
pub struct Zone {
    name: String,
}

impl Zone {
    #[verifier::type_invariant]
    spec fn is_known(self) -> bool {
        known_zone(self.name@)
    }

    /// The name of the zone.
    pub closed spec fn spec_name(self) -> Seq<char> {
        self.name@
    }

    /// The zone named `name`, if the database knows it.
    pub fn parse(name: &str) -> (r: Option<Zone>)
        ensures
            r is Some <==> known_zone(name@),
            r matches Some(z) ==> z.spec_name() == name@,
    {
        if is_known_zone(name) {
            Some(Zone { name: crate::text::owned(name) })
        } else {
            None
        }
    }

    /// Renders `t` in this zone with `fmt`.
    pub fn render(&self, t: &Timestamp, fmt: &str) -> (r: String)
        requires
            t.renderable(),
            fmt@ == "%H:%M"@ || fmt@ == "%F %T"@,
        ensures
            r@ == timestamp_zoned_text(self.spec_name(), *t, fmt@),
    {
        proof {
            use_type_invariant(self);
        }
        timestamp_in_zone(self.name.as_str(), t, fmt)
    }
}

} // verus!

//! Points in time, as seconds since the Unix epoch (UTC) and a sub-second part
//! in nanoseconds, and the calls into `chrono` that parse and render them.
use vstd::prelude::*;

verus! {

/// A point in time: `secs` since 1970-01-01 00:00:00 UTC and `nanos` within that
/// second (a value of 1e9 or more marks a leap second, as `chrono` does).
#[derive(Debug, Clone, Copy, PartialEq, Eq, Structural)]
pub struct Instant {
    pub secs: i64,
    pub nanos: u32,
}

/// `a` is strictly earlier than `b`.
pub open spec fn before(a: Instant, b: Instant) -> bool {
    a.secs < b.secs || (a.secs == b.secs && a.nanos < b.nanos)
}

/// `a` is earlier than or equal to `b`.
pub open spec fn at_or_before(a: Instant, b: Instant) -> bool {
    before(a, b) || a == b
}

/// The UTC calendar day of an instant, counted in days from the epoch.
pub open spec fn utc_day(a: Instant) -> int {
    (a.secs as int) / 86400
}

/// Seconds since the epoch of `a` moved by `minutes` minutes.
pub open spec fn secs_after_minutes(a: Instant, minutes: int) -> int {
    a.secs + 60 * minutes
}

/// `a` moved by `minutes` minutes is strictly earlier than `b`.
pub open spec fn shifted_before(a: Instant, minutes: int, b: Instant) -> bool {
    secs_after_minutes(a, minutes) < b.secs || (secs_after_minutes(a, minutes) == b.secs
        && a.nanos < b.nanos)
}

impl Instant {
    /// The Unix epoch.
    pub fn epoch() -> (i: Instant)
        ensures
            i.secs == 0 && i.nanos == 0,
    {
        Instant { secs: 0, nanos: 0 }
    }

    /// Whether `self` is earlier than or equal to `other`.
    pub fn le(&self, other: &Instant) -> (b: bool)
        ensures
            b == at_or_before(*self, *other),
    {
        self.secs < other.secs || (self.secs == other.secs && self.nanos <= other.nanos)
    }

    /// The UTC day of this instant, counted from the epoch.
    pub fn day(&self) -> (d: i64)
        ensures
            d == utc_day(*self),
    {
        let q = self.secs / 86400;
        let r = self.secs % 86400;
        if r < 0 {
            q - 1
        } else {
            q
        }
    }

    /// The instant moved by `minutes` minutes: the time of a session added with
    /// a UTC offset.
    pub fn plus_minutes(&self, minutes: i16) -> (r: Instant)
        requires
            i64::MIN <= secs_after_minutes(*self, minutes as int) <= i64::MAX,
        ensures
            r.secs == secs_after_minutes(*self, minutes as int),
            r.nanos == self.nanos,
    {
        Instant { secs: self.secs + 60 * (minutes as i64), nanos: self.nanos }
    }

    /// Whether `self` moved by `minutes` minutes is strictly earlier than `other`.
    pub fn shifted_before(&self, minutes: i32, other: &Instant) -> (b: bool)
        ensures
            b == shifted_before(*self, minutes as int, *other),
    {
        let s: i128 = self.secs as i128 + 60 * (minutes as i128);
        s < other.secs as i128 || (s == other.secs as i128 && self.nanos < other.nanos)
    }
}

/// What `chrono` parses from `text` with the strftime `format`, as a naive
/// date-time taken to be in UTC: its Unix timestamp and sub-second nanoseconds,
/// or `None` when the text does not match the format.
pub uninterp spec fn naive_utc_parse(text: Seq<char>, format: Seq<char>) -> Option<(i64, u32)>;

/// Parses `text` with `chrono::NaiveDateTime::parse_from_str` and reads the
/// result as UTC. Nothing about which texts parse is stated here: the result is
/// the named parse of the text and the format.
#[verifier::external_body]
pub(crate) fn parse_naive_utc(text: &str, format: &str) -> (res: Option<Instant>)
    ensures
        match naive_utc_parse(text@, format@) {
            Some(p) => res == Some(Instant { secs: p.0, nanos: p.1 }),
            None => res is None,
        },
{
    match chrono::NaiveDateTime::parse_from_str(text, format) {
        Ok(d) => Some(Instant { secs: d.and_utc().timestamp(), nanos: d.and_utc().timestamp_subsec_nanos() }),
        Err(_) => None,
    }
}

/// The RFC 3339 rendering that `chrono` gives the UTC date-time with this
/// timestamp and sub-second part, or `None` when `chrono` cannot represent it.
pub uninterp spec fn utc_rfc3339(secs: i64, nanos: u32) -> Option<Seq<char>>;

/// Renders an instant with `chrono::DateTime::<Utc>::to_rfc3339`, after building
/// the date-time with `DateTime::from_timestamp`; `None` when that fails. The
/// text itself is only named, not described.
#[verifier::external_body]
pub(crate) fn to_rfc3339(t: Instant) -> (res: Option<String>)
    ensures
        match utc_rfc3339(t.secs, t.nanos) {
            Some(s) => res matches Some(r) && r@ == s,
            None => res is None,
        },
{
    match chrono::DateTime::from_timestamp(t.secs, t.nanos) {
        Some(d) => Some(d.to_rfc3339()),
        None => None,
    }
}

/// The strftime formats the bot displays dates with.
pub open spec fn display_format(format: Seq<char>) -> bool {
    ||| format == "%Y-%m-%d %H:%M"@
    ||| format == "%e %B %Y %H:%M"@
    ||| format == "%B %d, %Y"@
    ||| format == "%B %Y"@
    ||| format == "%B %d"@
    ||| format == "%B"@
    ||| format == "%d"@
    ||| format == "%Y"@
    ||| format == "%m/%d"@
    ||| format == "%y/%m"@
}

/// The text `chrono` renders for the UTC date-time with this timestamp and
/// sub-second part under a strftime `format`, or `None` when `chrono` cannot
/// represent the date-time.
pub uninterp spec fn utc_format(secs: i64, nanos: u32, format: Seq<char>) -> Option<Seq<char>>;

/// Renders an instant with `chrono`'s `format(..).to_string()`, after building
/// the date-time with `DateTime::from_timestamp`; `None` when that fails. Only
/// the bot's fixed display formats are accepted, since rendering an invalid
/// format panics.
#[verifier::external_body]
pub(crate) fn format_utc(t: Instant, format: &str) -> (res: Option<String>)
    requires
        display_format(format@),
    ensures
        match utc_format(t.secs, t.nanos, format@) {
            Some(s) => res matches Some(r) && r@ == s,
            None => res is None,
        },
{
    match chrono::DateTime::from_timestamp(t.secs, t.nanos) {
        Some(d) => Some(d.format(format).to_string()),
        None => None,
    }
}

/// The calendar year (UTC) of the date-time with this timestamp and sub-second
/// part, as `chrono` computes it, or `None` when `chrono` cannot represent it.
pub uninterp spec fn utc_year(secs: i64, nanos: u32) -> Option<i32>;

/// The UTC year of an instant (`Datelike::year`), after building the date-time
/// with `DateTime::from_timestamp`; `None` when that fails.
#[verifier::external_body]
pub(crate) fn year_of(t: Instant) -> (res: Option<i32>)
    ensures
        res == utc_year(t.secs, t.nanos),
{
    match chrono::DateTime::from_timestamp(t.secs, t.nanos) {
        Some(d) => Some(chrono::Datelike::year(&d)),
        None => None,
    }
}

/// The calendar month (UTC, January being 1) of the date-time with this
/// timestamp and sub-second part, as `chrono` computes it, or `None` when
/// `chrono` cannot represent it.
pub uninterp spec fn utc_month(secs: i64, nanos: u32) -> Option<u32>;

/// The UTC month of an instant (`Datelike::month`), after building the
/// date-time with `DateTime::from_timestamp`; `None` when that fails. Which
/// month is only named; what is stated is that it lies between 1 and 12, as
/// the documentation of `month` says.
#[verifier::external_body]
pub(crate) fn month_of(t: Instant) -> (res: Option<u32>)
    ensures
        res == utc_month(t.secs, t.nanos),
        res matches Some(m) ==> 1 <= m <= 12,
{
    match chrono::DateTime::from_timestamp(t.secs, t.nanos) {
        Some(d) => Some(chrono::Datelike::month(&d)),
        None => None,
    }
}

/// Being earlier is a strict order on instants.
pub proof fn lemma_before_strict_order(a: Instant, b: Instant, c: Instant)
    ensures
        !before(a, a),
        before(a, b) && before(b, c) ==> before(a, c),
        before(a, b) ==> !before(b, a),
        a == b || before(a, b) || before(b, a),
{
}

} // verus!

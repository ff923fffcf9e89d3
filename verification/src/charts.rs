//! The data of a statistics chart: the check that twelve periods are there,
//! the title, the named integer series, and the twelve labels of the x axis.
//! Drawing the chart (floating-point series, rendering to an image) is left to
//! the caller.
use vstd::prelude::*;
use crate::datetime::{Instant, format_utc, month_of, utc_day, utc_format, utc_month, utc_year, year_of};
use crate::stats::{ChartStyle, StatsType, Timeframe as Totals};
use crate::text::str_to_string;
use crate::time::Timeframe;
use crate::winner::{month_start, utc_month_start};

verus! {

/// The title of a chart: none for the combined bars, otherwise what is shown.
pub open spec fn chart_title_text(stats_type: StatsType, chart_style: ChartStyle) -> Seq<char> {
    if chart_style == ChartStyle::BarCombined {
        Seq::<char>::empty()
    } else {
        match stats_type {
            StatsType::MeditationMinutes => "Meditation Minutes"@,
            StatsType::MeditationCount => "Meditation Sessions"@,
        }
    }
}

/// The title of a chart (see [`chart_title_text`]).
pub fn chart_title(stats_type: StatsType, chart_style: ChartStyle) -> (s: String)
    ensures
        s@ == chart_title_text(stats_type, chart_style),
{
    if chart_style == ChartStyle::BarCombined {
        String::new()
    } else {
        match stats_type {
            StatsType::MeditationMinutes => str_to_string("Meditation Minutes"),
            StatsType::MeditationCount => str_to_string("Meditation Sessions"),
        }
    }
}

/// The minutes of each period, 0 where there are none.
pub open spec fn minutes_series(stats: Seq<Totals>) -> Seq<i64> {
    Seq::new(stats.len(), |i: int| match stats[i].sum { Some(v) => v, None => 0 })
}

/// The sessions of each period, 0 where there are none.
pub open spec fn sessions_series(stats: Seq<Totals>) -> Seq<i64> {
    Seq::new(stats.len(), |i: int| match stats[i].count { Some(v) => v, None => 0 })
}

/// The series of a chart, each a name and its values: minutes and sessions
/// for the combined bars, otherwise the one shown.
pub open spec fn chart_series_spec(stats: Seq<Totals>, stats_type: StatsType, chart_style: ChartStyle) -> Seq<
    (Seq<char>, Seq<i64>),
> {
    if chart_style == ChartStyle::BarCombined {
        seq![("Minutes"@, minutes_series(stats)), ("Sessions"@, sessions_series(stats))]
    } else {
        match stats_type {
            StatsType::MeditationMinutes => seq![("Minutes"@, minutes_series(stats))],
            StatsType::MeditationCount => seq![("Sessions"@, sessions_series(stats))],
        }
    }
}

fn series_values(stats: &Vec<Totals>, minutes: bool) -> (v: Vec<i64>)
    ensures
        v@ == if minutes { minutes_series(stats@) } else { sessions_series(stats@) },
{
    let mut v: Vec<i64> = Vec::new();
    let mut i: usize = 0;
    while i < stats.len()
        invariant
            i <= stats.len(),
            v@.len() == i,
            forall|k: int| 0 <= k < i ==> v@[k] == (if minutes {
                minutes_series(stats@)
            } else {
                sessions_series(stats@)
            })[k],
        decreases stats.len() - i,
    {
        let t = stats[i];
        let x = if minutes {
            match t.sum {
                Some(s) => s,
                None => 0,
            }
        } else {
            match t.count {
                Some(c) => c,
                None => 0,
            }
        };
        v.push(x);
        i += 1;
    }
    assert(v@ =~= if minutes { minutes_series(stats@) } else { sessions_series(stats@) });
    v
}

/// The series of a chart over the totals of its periods (see
/// [`chart_series_spec`]); `None`, and no chart, unless there are exactly
/// twelve periods.
pub fn chart_series(stats: &Vec<Totals>, stats_type: StatsType, chart_style: ChartStyle) -> (r: Option<
    Vec<(String, Vec<i64>)>,
>)
    ensures
        stats@.len() != 12 ==> r is None,
        stats@.len() == 12 ==> (r matches Some(v) && v@.len() == chart_series_spec(stats@, stats_type, chart_style).len()
            && forall|k: int|
            0 <= k < v@.len() ==> (#[trigger] v@[k]).0@ == chart_series_spec(stats@, stats_type, chart_style)[k].0
                && v@[k].1@ == chart_series_spec(stats@, stats_type, chart_style)[k].1),
{
    if stats.len() != 12 {
        return None;
    }
    let mut v: Vec<(String, Vec<i64>)> = Vec::new();
    if chart_style == ChartStyle::BarCombined {
        v.push((str_to_string("Minutes"), series_values(stats, true)));
        v.push((str_to_string("Sessions"), series_values(stats, false)));
    } else {
        match stats_type {
            StatsType::MeditationMinutes => v.push((str_to_string("Minutes"), series_values(stats, true))),
            StatsType::MeditationCount => v.push((str_to_string("Sessions"), series_values(stats, false))),
        }
    }
    Some(v)
}

/// The day (counted from the epoch) of the Monday starting the week of `day`;
/// 1970-01-01 was a Thursday.
pub open spec fn monday_of(day: int) -> int {
    day - (day + 3) % 7
}

/// `a - b` for an `i32` year, saturating at `i32::MIN`.
pub open spec fn year_back(a: i32, b: int) -> i32 {
    if a - b < i32::MIN {
        i32::MIN
    } else {
        (a - b) as i32
    }
}

/// The timestamp of midnight starting `day` (counted from the epoch).
pub open spec fn day_secs(day: int) -> i64 {
    (day * 86400) as i64
}

/// The label of the `n`th of the twelve periods of a chart (1 to 12, the last
/// being the current one), seen at `now` by a member `offset_minutes` from
/// UTC: for days, the date of now moved by the offset and back `12 - n` days
/// (`%m/%d`); for weeks, the Monday starting the week of now's UTC date, back
/// `12 - n` weeks (`%m/%d`); for months, the first of the month `12 - n`
/// months before now's month in now's year, the month number saturating at 0,
/// or, when that date does not exist, now's UTC date back `360 - 30 n` days
/// (`%y/%m`); for years, January 1 of now's year less `12 - n` (saturating),
/// or, when that date does not exist, now's UTC date back `365 (12 - n)` days
/// (`%Y`). `None` when a date cannot be represented.
pub open spec fn chart_label(now: Instant, offset_minutes: i16, timeframe: Timeframe, n: int) -> Option<Seq<char>> {
    let back = 12 - n;
    match timeframe {
        Timeframe::Daily => utc_format(
            (now.secs + 60 * offset_minutes - 86400 * back) as i64,
            now.nanos,
            "%m/%d"@,
        ),
        Timeframe::Weekly => utc_format(day_secs(monday_of(utc_day(now)) - 7 * back), 0, "%m/%d"@),
        Timeframe::Monthly => match (utc_year(now.secs, now.nanos), utc_month(now.secs, now.nanos)) {
            (Some(y), Some(m)) => {
                let month: u32 = if m > back { (m - back) as u32 } else { 0 };
                match utc_month_start(y, month) {
                    Some(s) => utc_format(s, 0, "%y/%m"@),
                    None => utc_format(day_secs(utc_day(now) - 30 * back), 0, "%y/%m"@),
                }
            },
            _ => None,
        },
        Timeframe::Yearly => match utc_year(now.secs, now.nanos) {
            Some(y) => match utc_month_start(year_back(y, back), 1) {
                Some(s) => utc_format(s, 0, "%Y"@),
                None => utc_format(day_secs(utc_day(now) - 365 * back), 0, "%Y"@),
            },
            None => None,
        },
    }
}

/// The instants a chart's timestamps may be taken at: well inside what an
/// `i64` of seconds holds, so that moving by the offset and the twelve periods
/// cannot overflow (no representable date lies outside this).
pub open spec fn chart_time(now: Instant) -> bool {
    -0x1000_0000_0000_0000 <= now.secs <= 0x1000_0000_0000_0000
}

fn label(now: Instant, offset_minutes: i16, timeframe: Timeframe, n: i64) -> (r: Option<String>)
    requires
        chart_time(now),
        1 <= n <= 12,
    ensures
        match chart_label(now, offset_minutes, timeframe, n as int) {
            Some(t) => r matches Some(s) && s@ == t,
            None => r is None,
        },
{
    let back: i64 = 12 - n;
    match timeframe {
        Timeframe::Daily => {
            let t = Instant { secs: now.secs + 60 * (offset_minutes as i64) - 86400 * back, nanos: now.nanos };
            format_utc(t, "%m/%d")
        },
        Timeframe::Weekly => {
            let d = now.day();
            let q = (d + 3) % 7;
            let w = if q < 0 { q + 7 } else { q };
            assert(w == (d + 3) % 7);
            let t = Instant { secs: (d - w - 7 * back) * 86400, nanos: 0 };
            format_utc(t, "%m/%d")
        },
        Timeframe::Monthly => {
            let y = match year_of(now) {
                Some(y) => y,
                None => return None,
            };
            let m = match month_of(now) {
                Some(m) => m,
                None => return None,
            };
            let b: u32 = back as u32;
            let month: u32 = if m > b { m - b } else { 0 };
            match month_start(y, month) {
                Some(s) => format_utc(s, "%y/%m"),
                None => {
                    let t = Instant { secs: (now.day() - 30 * back) * 86400, nanos: 0 };
                    format_utc(t, "%y/%m")
                },
            }
        },
        Timeframe::Yearly => {
            let y = match year_of(now) {
                Some(y) => y,
                None => return None,
            };
            let b: i32 = back as i32;
            let year: i32 = if (y as i64) - (b as i64) < i32::MIN as i64 { i32::MIN } else { y - b };
            match month_start(year, 1) {
                Some(s) => format_utc(s, "%Y"),
                None => {
                    let t = Instant { secs: (now.day() - 365 * back) * 86400, nanos: 0 };
                    format_utc(t, "%Y")
                },
            }
        },
    }
}

/// The twelve labels of a chart's x axis (see [`chart_label`]), or `None`
/// when one of them cannot be made.
pub fn chart_x_labels(now: Instant, offset_minutes: i16, timeframe: Timeframe) -> (labels: Option<Vec<String>>)
    requires
        chart_time(now),
    ensures
        labels matches Some(v) ==> v@.len() == 12 && forall|k: int|
            0 <= k < 12 ==> chart_label(now, offset_minutes, timeframe, k + 1) == Some(#[trigger] v@[k]@),
        labels is None ==> exists|k: int| 0 <= k < 12 && #[trigger] chart_label(now, offset_minutes, timeframe, k + 1) is None,
{
    let mut v: Vec<String> = Vec::new();
    let mut n: i64 = 1;
    while n <= 12
        invariant
            chart_time(now),
            1 <= n <= 13,
            v@.len() == n - 1,
            forall|k: int| 0 <= k < n - 1 ==> chart_label(now, offset_minutes, timeframe, k + 1) == Some(#[trigger] v@[k]@),
        decreases 13 - n,
    {
        match label(now, offset_minutes, timeframe, n) {
            Some(s) => v.push(s),
            None => {
                assert(chart_label(now, offset_minutes, timeframe, (n - 1) + 1) is None);
                return None;
            },
        }
        n += 1;
    }
    Some(v)
}

} // verus!

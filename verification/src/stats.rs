//! Statistics: totals for a period, leaderboard rows and the queries that fetch
//! them, and the rendering of personal bests.
use vstd::prelude::*;
use crate::datetime::{Instant, format_utc, utc_format, utc_year, year_of};
use crate::text::{int_decimal, push_i64, push_str, trunc_div, trunc_rem};
use crate::time::Timeframe as StatsTimeframe;
use crate::tracking_profile::{Privacy, Status, TrackingProfile};
use crate::glossary::{join_strings, joined, texts};

verus! {

/// What a statistics chart shows.
#[derive(Debug, Clone, Copy, PartialEq, Eq, Structural)]
pub enum StatsType {
    MeditationMinutes,
    MeditationCount,
}

/// Chart styles.
#[derive(Debug, Clone, Copy, PartialEq, Eq, Structural)]
pub enum ChartStyle {
    Bar,
    Area,
    BarCombined,
}

/// The value a leaderboard is sorted by.
#[derive(Debug, Clone, Copy, PartialEq, Eq, Structural)]
pub enum SortBy {
    Minutes,
    Sessions,
    Streak,
}

/// Leaderboard sizes.
#[derive(Debug, Clone, Copy, PartialEq, Eq, Structural)]
pub enum LeaderboardType {
    Top5,
    Top10,
}

/// Chart colour themes.
#[derive(Debug, Clone, Copy, PartialEq, Eq, Structural)]
pub enum Theme {
    LightMode,
    DarkMode,
}

/// Which bests are shown.
#[derive(Debug, Clone, Copy, PartialEq, Eq, Structural)]
pub enum BestsType {
    Overall,
    Times,
    Sessions,
}

/// Sum of minutes and count of sessions over a period (absent when no rows).
#[derive(Debug, Clone, Copy, PartialEq, Eq, Structural)]
pub struct Timeframe {
    pub sum: Option<i64>,
    pub count: Option<i64>,
}

impl Timeframe {
    pub fn new(sum: Option<i64>, count: Option<i64>) -> (t: Timeframe)
        ensures
            t.sum == sum && t.count == count,
    {
        Timeframe { sum, count }
    }
}

/// One row of a leaderboard.
pub struct LeaderboardUser {
    pub name: Option<String>,
    pub minutes: Option<i64>,
    pub sessions: Option<i64>,
    pub streak: Option<i32>,
    pub anonymous_tracking: Option<bool>,
    pub streaks_active: Option<bool>,
    pub streaks_private: Option<bool>,
}

/// The materialised view holding a leaderboard.
pub open spec fn leaderboard_view(timeframe: StatsTimeframe) -> Seq<char> {
    match timeframe {
        StatsTimeframe::Daily => "daily_leaderboard"@,
        StatsTimeframe::Weekly => "weekly_leaderboard"@,
        StatsTimeframe::Monthly => "monthly_leaderboard"@,
        StatsTimeframe::Yearly => "yearly_leaderboard"@,
    }
}

/// The column a leaderboard is ordered by.
pub open spec fn sort_column(sort_by: SortBy) -> Seq<char> {
    match sort_by {
        SortBy::Minutes => "minutes"@,
        SortBy::Sessions => "sessions"@,
        SortBy::Streak => "streak"@,
    }
}

/// The number of rows a leaderboard shows.
pub open spec fn leaderboard_limit(t: LeaderboardType) -> i64 {
    match t {
        LeaderboardType::Top5 => 5,
        LeaderboardType::Top10 => 10,
    }
}

/// The query for a leaderboard (guild as `$1`, row limit as `$2`) and the limit.
pub struct LeaderboardQuery {
    pub sql: String,
    pub limit: i64,
}

fn view_name(timeframe: StatsTimeframe) -> (s: &'static str)
    ensures
        s@ == leaderboard_view(timeframe),
{
    match timeframe {
        StatsTimeframe::Daily => "daily_leaderboard",
        StatsTimeframe::Weekly => "weekly_leaderboard",
        StatsTimeframe::Monthly => "monthly_leaderboard",
        StatsTimeframe::Yearly => "yearly_leaderboard",
    }
}

impl LeaderboardUser {
    /// The leaderboard query for a period, sort order and size.
    pub fn stats(timeframe: StatsTimeframe, sort_by: SortBy, leaderboard_type: LeaderboardType) -> (q:
        LeaderboardQuery)
        ensures
            q.limit == leaderboard_limit(leaderboard_type),
            q.sql@
                == "SELECT name, minutes, sessions, streak, anonymous_tracking, streaks_active, streaks_private FROM "@
                + leaderboard_view(timeframe) + " WHERE guild = $1 ORDER BY "@ + sort_column(sort_by)
                + " DESC LIMIT $2"@,
    {
        let limit: i64 = match leaderboard_type {
            LeaderboardType::Top5 => 5,
            LeaderboardType::Top10 => 10,
        };
        let mut sql = String::new();
        push_str(
            &mut sql,
            "SELECT name, minutes, sessions, streak, anonymous_tracking, streaks_active, streaks_private FROM ",
        );
        push_str(&mut sql, view_name(timeframe));
        push_str(&mut sql, " WHERE guild = $1 ORDER BY ");
        match sort_by {
            SortBy::Minutes => push_str(&mut sql, "minutes"),
            SortBy::Sessions => push_str(&mut sql, "sessions"),
            SortBy::Streak => push_str(&mut sql, "streak"),
        }
        push_str(&mut sql, " DESC LIMIT $2");
        LeaderboardQuery { sql, limit }
    }
}

/// A personal best: the start of the period and its total (seconds or sessions).
#[derive(Debug, Clone, Copy, PartialEq, Eq, Structural)]
pub struct BestData {
    pub date: Instant,
    pub total: i64,
}

/// `"{n} {unit}"` when `n` is at least 1, nothing otherwise.
pub open spec fn short_unit(n: int, unit: Seq<char>) -> Seq<Seq<char>> {
    if n < 1 {
        Seq::empty()
    } else {
        seq![int_decimal(n) + " "@ + unit]
    }
}

/// Nothing below 1, `"1 {singular}"` for one, `"{n} {plural}"` above.
pub open spec fn long_unit(n: int, singular: Seq<char>, plural: Seq<char>) -> Seq<Seq<char>> {
    if n < 1 {
        Seq::empty()
    } else if n == 1 {
        seq!["1 "@ + singular]
    } else {
        seq![int_decimal(n) + " "@ + plural]
    }
}

/// Hours, minutes and seconds of a total in seconds, as Rust's integer
/// division and remainder compute them.
pub open spec fn hms(total: int) -> (int, int, int) {
    (
        trunc_div(trunc_div(total, 60), 60),
        trunc_rem(trunc_div(total, 60), 60),
        trunc_rem(total, 60),
    )
}

fn add_short_unit(parts: &mut Vec<String>, n: i64, unit: &str)
    ensures
        texts(final(parts)@) == texts(old(parts)@) + short_unit(n as int, unit@),
{
    let ghost before = texts(parts@);
    if n >= 1 {
        let mut t = String::new();
        push_i64(&mut t, n);
        push_str(&mut t, " ");
        push_str(&mut t, unit);
        parts.push(t);
        assert(texts(parts@) =~= before + short_unit(n as int, unit@));
    } else {
        assert(texts(parts@) =~= before + Seq::<Seq<char>>::empty());
    }
}

fn add_long_unit(parts: &mut Vec<String>, n: i64, singular: &str, plural: &str)
    ensures
        texts(final(parts)@) == texts(old(parts)@) + long_unit(n as int, singular@, plural@),
{
    let ghost before = texts(parts@);
    if n < 1 {
        assert(texts(parts@) =~= before + Seq::<Seq<char>>::empty());
    } else {
        let mut t = String::new();
        if n == 1 {
            push_str(&mut t, "1 ");
            push_str(&mut t, singular);
        } else {
            push_i64(&mut t, n);
            push_str(&mut t, " ");
            push_str(&mut t, plural);
        }
        parts.push(t);
        assert(texts(parts@) =~= before + long_unit(n as int, singular@, plural@));
    }
}

impl BestData {
    /// A time best as `H h M m S s`: the units that are not zero, joined by
    /// one space, nothing after the last.
    pub fn total_to_hms(&self) -> (s: String)
        ensures
            ({
                let (h, m, sec) = hms(self.total as int);
                s@ == joined(short_unit(h, "h"@) + short_unit(m, "m"@) + short_unit(sec, "s"@), " "@)
            }),
    {
        let h = (self.total / 60) / 60;
        let m = (self.total / 60) % 60;
        let sec = self.total % 60;
        let mut parts: Vec<String> = Vec::new();
        assert(texts(parts@) =~= Seq::<Seq<char>>::empty());
        add_short_unit(&mut parts, h, "h");
        add_short_unit(&mut parts, m, "m");
        add_short_unit(&mut parts, sec, "s");
        join_strings(&parts, " ")
    }

    /// A time best as `H hours M minutes S seconds`: the units that are not
    /// zero, singular for one, joined by one space, nothing after the last.
    pub fn total_to_hms_full(&self) -> (s: String)
        ensures
            ({
                let (h, m, sec) = hms(self.total as int);
                s@ == joined(
                    long_unit(h, "hour"@, "hours"@) + long_unit(m, "minute"@, "minutes"@) + long_unit(
                        sec,
                        "second"@,
                        "seconds"@,
                    ),
                    " "@,
                )
            }),
    {
        let h = (self.total / 60) / 60;
        let m = (self.total / 60) % 60;
        let sec = self.total % 60;
        let mut parts: Vec<String> = Vec::new();
        assert(texts(parts@) =~= Seq::<Seq<char>>::empty());
        add_long_unit(&mut parts, h, "hour", "hours");
        add_long_unit(&mut parts, m, "minute", "minutes");
        add_long_unit(&mut parts, sec, "second", "seconds");
        join_strings(&parts, " ")
    }

    /// A session best as `N sessions`, singular for one.
    pub fn total_to_sessions(&self) -> (s: String)
        ensures
            s@ == int_decimal(self.total as int) + if self.total == 1 {
                " session"@
            } else {
                " sessions"@
            },
    {
        let mut s = String::new();
        push_i64(&mut s, self.total);
        if self.total == 1 {
            push_str(&mut s, " session");
        } else {
            push_str(&mut s, " sessions");
        }
        s
    }

    /// A daily best's date as `Month DD, YYYY`; `None` when it cannot be rendered.
    pub fn date_to_day(&self) -> (s: Option<String>)
        ensures
            s matches Some(t) ==> utc_format(self.date.secs, self.date.nanos, "%B %d, %Y"@)
                == Some(t@),
            s is None ==> utc_format(self.date.secs, self.date.nanos, "%B %d, %Y"@) is None,
    {
        format_utc(self.date, "%B %d, %Y")
    }

    /// A weekly best's dates as `Month DD-DD, YYYY`, or `Month DD-Month DD, YYYY`
    /// when the week ends in another month; `None` when a date cannot be rendered.
    pub fn date_to_week(&self) -> (s: Option<String>)
        ensures
            self.date.secs + 518400 > i64::MAX ==> s is None,
            self.date.secs + 518400 <= i64::MAX ==> ({
                let d = self.date;
                let e = Instant { secs: (d.secs + 518400) as i64, nanos: d.nanos };
                match (
                    utc_format(d.secs, d.nanos, "%B %d"@),
                    utc_format(d.secs, d.nanos, "%B"@),
                    utc_format(e.secs, e.nanos, "%B"@),
                    utc_format(e.secs, e.nanos, "%d"@),
                    utc_format(e.secs, e.nanos, "%B %d"@),
                    utc_year(d.secs, d.nanos),
                ) {
                    (Some(start), Some(m1), Some(m2), Some(day), Some(month_day), Some(y)) => s
                        matches Some(t) && t@ == start + "-"@ + (if m1 == m2 {
                        day
                    } else {
                        month_day
                    }) + ", "@ + int_decimal(y as int),
                    _ => s is None,
                }
            }),
    {
        if self.date.secs > i64::MAX - 518400 {
            return None;
        }
        let end = Instant { secs: self.date.secs + 518400, nanos: self.date.nanos };
        let start = match format_utc(self.date, "%B %d") {
            Some(x) => x,
            None => return None,
        };
        let m1 = match format_utc(self.date, "%B") {
            Some(x) => x,
            None => return None,
        };
        let m2 = match format_utc(end, "%B") {
            Some(x) => x,
            None => return None,
        };
        let day = match format_utc(end, "%d") {
            Some(x) => x,
            None => return None,
        };
        let month_day = match format_utc(end, "%B %d") {
            Some(x) => x,
            None => return None,
        };
        let year = match year_of(self.date) {
            Some(y) => y,
            None => return None,
        };
        let mut s = String::new();
        push_str(&mut s, start.as_str());
        push_str(&mut s, "-");
        if m1 == m2 {
            push_str(&mut s, day.as_str());
        } else {
            push_str(&mut s, month_day.as_str());
        }
        push_str(&mut s, ", ");
        push_i64(&mut s, year as i64);
        Some(s)
    }

    /// A monthly best's date as `Month YYYY`; `None` when it cannot be rendered.
    pub fn date_to_month(&self) -> (s: Option<String>)
        ensures
            s matches Some(t) ==> utc_format(self.date.secs, self.date.nanos, "%B %Y"@) == Some(
                t@,
            ),
            s is None ==> utc_format(self.date.secs, self.date.nanos, "%B %Y"@) is None,
    {
        format_utc(self.date, "%B %Y")
    }

    /// A yearly best's date as the year; `None` when it cannot be determined.
    pub fn date_to_year(&self) -> (s: Option<String>)
        ensures
            match utc_year(self.date.secs, self.date.nanos) {
                Some(y) => s matches Some(t) && t@ == int_decimal(y as int),
                None => s is None,
            },
    {
        match year_of(self.date) {
            Some(y) => Some(crate::text::i64_to_string(y as i64)),
            None => None,
        }
    }
}

/// Sum of the `sum` (or `count`) values of a series, absent values counting as 0.
pub open spec fn series_total(xs: Seq<Timeframe>, sums: bool) -> int
    decreases xs.len(),
{
    if xs.len() == 0 {
        0
    } else {
        series_total(xs.drop_last(), sums) + match (if sums {
            xs.last().sum
        } else {
            xs.last().count
        }) {
            Some(v) => v as int,
            None => 0,
        }
    }
}

/// The total minutes (`sums`) or sessions over a chart's series, absent values
/// counting as 0; `None` when a running total leaves the `i64` range.
pub fn series_sum(xs: &Vec<Timeframe>, sums: bool) -> (r: Option<i64>)
    ensures
        r matches Some(v) ==> v == series_total(xs@, sums),
        r is None ==> exists|k: int|
            0 < k <= xs@.len() && !(i64::MIN <= #[trigger] series_total(xs@.take(k), sums)
                <= i64::MAX),
{
    let mut total: i64 = 0;
    let mut i: usize = 0;
    while i < xs.len()
        invariant
            i <= xs.len(),
            total == series_total(xs@.take(i as int), sums),
        decreases xs.len() - i,
    {
        proof {
            assert(xs@.take(i as int + 1).drop_last() =~= xs@.take(i as int));
        }
        let ghost k: int = i as int + 1;
        let v = if sums {
            xs[i].sum
        } else {
            xs[i].count
        };
        let add: i64 = match v {
            Some(v) => v,
            None => 0,
        };
        let t = total as i128 + add as i128;
        if t < i64::MIN as i128 || t > i64::MAX as i128 {
            assert(!(i64::MIN <= series_total(xs@.take(k), sums) <= i64::MAX));
            return None;
        }
        total = t as i64;
        i += 1;
    }
    assert(xs@.take(xs@.len() as int) =~= xs@);
    Some(total)
}

} // verus!

verus! {

/// The plural unit of a period, as chart headers show it.
pub open spec fn timeframe_header(t: StatsTimeframe) -> Seq<char> {
    match t {
        StatsTimeframe::Yearly => "Years"@,
        StatsTimeframe::Monthly => "Months"@,
        StatsTimeframe::Weekly => "Weeks"@,
        StatsTimeframe::Daily => "Days"@,
    }
}

/// The name of a period in lower case.
pub open spec fn timeframe_lower(t: StatsTimeframe) -> Seq<char> {
    match t {
        StatsTimeframe::Yearly => "yearly"@,
        StatsTimeframe::Monthly => "monthly"@,
        StatsTimeframe::Weekly => "weekly"@,
        StatsTimeframe::Daily => "daily"@,
    }
}

fn push_timeframe_header(s: &mut String, t: StatsTimeframe)
    ensures
        final(s)@ == old(s)@ + timeframe_header(t),
{
    match t {
        StatsTimeframe::Yearly => push_str(s, "Years"),
        StatsTimeframe::Monthly => push_str(s, "Months"),
        StatsTimeframe::Weekly => push_str(s, "Weeks"),
        StatsTimeframe::Daily => push_str(s, "Days"),
    }
}

fn push_timeframe_lower(s: &mut String, t: StatsTimeframe)
    ensures
        final(s)@ == old(s)@ + timeframe_lower(t),
{
    match t {
        StatsTimeframe::Yearly => push_str(s, "yearly"),
        StatsTimeframe::Monthly => push_str(s, "monthly"),
        StatsTimeframe::Weekly => push_str(s, "weekly"),
        StatsTimeframe::Daily => push_str(s, "daily"),
    }
}

/// The texts of a statistics embed: title, author line, two inline fields
/// (name and value) and the footer.
pub struct StatsEmbed {
    pub title: String,
    pub author: String,
    pub fields: Vec<(String, String)>,
    pub footer: String,
}

/// A number in a code block.
pub open spec fn code_number(n: int) -> Seq<char> {
    "```"@ + int_decimal(n) + "```"@
}

/// The two fields of a statistics embed: the all-time total and the total of
/// the last twelve periods, of minutes or of sessions.
pub open spec fn stats_fields_hold(
    fields: Seq<(String, String)>,
    stats_type: StatsType,
    timeframe: StatsTimeframe,
    total_minutes: i64,
    total_count: i64,
    timeframe_sum: i64,
    timeframe_count: i64,
) -> bool {
    &&& fields.len() == 2
    &&& match stats_type {
        StatsType::MeditationMinutes => {
            &&& fields[0].0@ == "All-Time Meditation Minutes"@
            &&& fields[0].1@ == code_number(total_minutes as int)
            &&& fields[1].0@ == "Minutes The Past 12 "@ + timeframe_header(timeframe)
            &&& fields[1].1@ == code_number(timeframe_sum as int)
        },
        StatsType::MeditationCount => {
            &&& fields[0].0@ == "All-Time Session Count"@
            &&& fields[0].1@ == code_number(total_count as int)
            &&& fields[1].0@ == "Sessions The Past 12 "@ + timeframe_header(timeframe)
            &&& fields[1].1@ == code_number(timeframe_count as int)
        },
    }
}

/// The footer of a statistics embed: the average per period over the last
/// twelve (rounded toward zero) and, when it may be shown, the current streak.
pub open spec fn stats_footer_text(
    stats_type: StatsType,
    timeframe: StatsTimeframe,
    timeframe_sum: i64,
    timeframe_count: i64,
    streak: Option<i32>,
) -> Seq<char> {
    let (total, label) = match stats_type {
        StatsType::MeditationMinutes => (timeframe_sum, "minutes"@),
        StatsType::MeditationCount => (timeframe_count, "sessions"@),
    };
    let average = int_decimal(trunc_div(total as int, 12));
    match streak {
        Some(c) => "Avg. "@ + timeframe_lower(timeframe) + " "@ + label + ": "@ + average
            + "・Current streak: "@ + int_decimal(c as int),
        None => "Average "@ + timeframe_lower(timeframe) + " "@ + label + ": "@ + average,
    }
}

fn code_block(n: i64) -> (s: String)
    ensures
        s@ == code_number(n as int),
{
    let mut s = String::new();
    push_str(&mut s, "```");
    push_i64(&mut s, n);
    push_str(&mut s, "```");
    s
}

/// The statistics embed for `name` (a member or the server): the totals of the
/// chosen kind and the footer with the average and, if given, the streak.
pub fn stats_embed(
    name: &str,
    stats_type: StatsType,
    timeframe: StatsTimeframe,
    total_minutes: i64,
    total_count: i64,
    timeframe_sum: i64,
    timeframe_count: i64,
    streak: Option<i32>,
) -> (e: StatsEmbed)
    ensures
        e.title@ == "Stats for "@ + name@,
        e.author@ == name@ + "'s Stats"@,
        stats_fields_hold(
            e.fields@,
            stats_type,
            timeframe,
            total_minutes,
            total_count,
            timeframe_sum,
            timeframe_count,
        ),
        e.footer@ == stats_footer_text(stats_type, timeframe, timeframe_sum, timeframe_count, streak),
{
    let mut title = String::new();
    push_str(&mut title, "Stats for ");
    push_str(&mut title, name);
    let mut author = String::new();
    push_str(&mut author, name);
    push_str(&mut author, "'s Stats");
    let mut fields: Vec<(String, String)> = Vec::new();
    let mut second = String::new();
    let (total, label) = match stats_type {
        StatsType::MeditationMinutes => {
            fields.push((crate::text::str_to_string("All-Time Meditation Minutes"), code_block(total_minutes)));
            push_str(&mut second, "Minutes The Past 12 ");
            push_timeframe_header(&mut second, timeframe);
            fields.push((second, code_block(timeframe_sum)));
            (timeframe_sum, "minutes")
        },
        StatsType::MeditationCount => {
            fields.push((crate::text::str_to_string("All-Time Session Count"), code_block(total_count)));
            push_str(&mut second, "Sessions The Past 12 ");
            push_timeframe_header(&mut second, timeframe);
            fields.push((second, code_block(timeframe_count)));
            (timeframe_count, "sessions")
        },
    };
    let average = total / 12;
    let mut footer = String::new();
    match streak {
        Some(_) => push_str(&mut footer, "Avg. "),
        None => push_str(&mut footer, "Average "),
    }
    push_timeframe_lower(&mut footer, timeframe);
    push_str(&mut footer, " ");
    push_str(&mut footer, label);
    push_str(&mut footer, ": ");
    push_i64(&mut footer, average);
    match streak {
        Some(c) => {
            push_str(&mut footer, "・Current streak: ");
            push_i64(&mut footer, c as i64);
        },
        None => {},
    }
    StatsEmbed { title, author, fields, footer }
}

/// Whether a member's statistics may be shown to the one asking: their own,
/// public ones, or to staff.
pub open spec fn stats_visible_to(own: bool, stats_privacy: Privacy, viewer_is_staff: bool) -> bool {
    own || stats_privacy == Privacy::Public || viewer_is_staff
}

/// Whether the statistics of a member with this profile may be shown to the
/// one asking.
pub fn can_view_stats(profile: &TrackingProfile, own: bool, viewer_is_staff: bool) -> (b: bool)
    ensures
        b == stats_visible_to(own, profile.stats.privacy, viewer_is_staff),
{
    own || !profile.stats.privacy.is_private() || viewer_is_staff
}

/// The reply when a member's statistics are private.
pub fn private_stats_message(name: &str) -> (s: String)
    ensures
        s@ == "Sorry, "@ + name@ + "'s stats are set to private."@,
{
    let mut s = String::new();
    push_str(&mut s, "Sorry, ");
    push_str(&mut s, name);
    push_str(&mut s, "'s stats are set to private.");
    s
}

/// The streak shown in a member's statistics footer: only when streaks are
/// enabled and either public or shown privately to the member themselves.
pub fn footer_streak(profile: &TrackingProfile, own: bool, private_reply: bool, current: i32) -> (s:
    Option<i32>)
    ensures
        s == (if profile.streak.status == Status::Enabled && (profile.streak.privacy
            == Privacy::Public || (own && private_reply)) {
            Some(current)
        } else {
            None
        }),
{
    let enabled = match profile.streak.status {
        Status::Enabled => true,
        Status::Disabled => false,
    };
    if enabled && (!profile.streak.privacy.is_private() || (own && private_reply)) {
        Some(current)
    } else {
        None
    }
}

} // verus!

verus! {

/// The hours, minutes and seconds shown for a time best add back up to its
/// total, with minutes and seconds below 60.
pub proof fn lemma_hms_recomposes(total: int)
    requires
        total >= 0,
    ensures
        ({
            let (h, m, s) = hms(total);
            &&& h * 3600 + m * 60 + s == total
            &&& h >= 0
            &&& 0 <= m < 60
            &&& 0 <= s < 60
        }),
{
    let q = total / 60;
    let r = total % 60;
    assert(total == 60 * q + r && 0 <= r < 60);
    assert(q >= 0);
    assert(q == 60 * (q / 60) + q % 60 && 0 <= q % 60 < 60);
    assert(trunc_div(total, 60) == q);
    assert(trunc_rem(total, 60) == r);
    assert(trunc_div(q, 60) == q / 60);
    assert(trunc_rem(q, 60) == q % 60);
}

} // verus!

verus! {

/// The table of a leaderboard chart: its title, its rows (the header row and
/// at most five or ten members), and the highlighted cells, one per row below
/// the header in the column sorted by.
pub struct LeaderboardTable {
    pub title: String,
    pub rows: Vec<Vec<String>>,
    pub highlighted: Vec<(usize, usize)>,
}

/// The column of the sorted statistic: minutes, sessions, then streak.
pub open spec fn sorted_column(sort_by: SortBy) -> usize {
    match sort_by {
        SortBy::Minutes => 1,
        SortBy::Sessions => 2,
        SortBy::Streak => 3,
    }
}

/// The table of a leaderboard chart from its rows, the header row first.
pub fn leaderboard_table(rows: Vec<Vec<String>>, leaderboard_type: LeaderboardType, sort_by: SortBy) -> (t:
    LeaderboardTable)
    ensures
        t.title@ == (match leaderboard_type {
            LeaderboardType::Top5 => "Leaderboard (Top 5)"@,
            LeaderboardType::Top10 => "Leaderboard (Top 10)"@,
        }),
        ({
            let keep: int = match leaderboard_type {
                LeaderboardType::Top5 => 6,
                LeaderboardType::Top10 => 11,
            };
            t.rows@ == rows@.take(if rows@.len() < keep { rows@.len() as int } else { keep })
        }),
        t.highlighted@.len() == t.rows@.len(),
        forall|k: int| 0 <= k < t.highlighted@.len() ==> #[trigger] t.highlighted@[k] == ((k + 1) as usize, sorted_column(sort_by)),
{
    let keep: usize = match leaderboard_type {
        LeaderboardType::Top5 => 6,
        LeaderboardType::Top10 => 11,
    };
    let mut rows = rows;
    let ghost all = rows@;
    rows.truncate(keep);
    assert(rows@ =~= all.take(if all.len() < keep { all.len() as int } else { keep as int }));
    let column: usize = match sort_by {
        SortBy::Minutes => 1,
        SortBy::Sessions => 2,
        SortBy::Streak => 3,
    };
    let mut highlighted: Vec<(usize, usize)> = Vec::new();
    let mut i: usize = 0;
    while i < rows.len()
        invariant
            i <= rows@.len() <= 11,
            column == sorted_column(sort_by),
            highlighted@.len() == i,
            forall|k: int| 0 <= k < i ==> #[trigger] highlighted@[k] == ((k + 1) as usize, column),
        decreases rows.len() - i,
    {
        highlighted.push((i + 1, column));
        i += 1;
    }
    let title = match leaderboard_type {
        LeaderboardType::Top5 => crate::text::str_to_string("Leaderboard (Top 5)"),
        LeaderboardType::Top10 => crate::text::str_to_string("Leaderboard (Top 10)"),
    };
    LeaderboardTable { title, rows, highlighted }
}

} // verus!

verus! {

/// Donators are the members with the Patreon or the Ko-fi role.
pub fn is_donator(member_roles: &Vec<u64>) -> (b: bool)
    ensures
        b == (member_roles@.contains(543900027928444935u64) || member_roles@.contains(1083219974509826048u64)),
{
    let r = crate::config::roles();
    crate::common::has_role(Some(member_roles), r.patreon) || crate::common::has_role(Some(member_roles), r.kofi)
}

/// The colour of the bars of a member's statistics chart: the default colour
/// unless the member is a donator; for a donator, the colour of their name in
/// the guild (fully opaque), or the default's red, green and blue when their
/// name has no colour. `member_colour` is the colour of the donator's name,
/// if any, or `None` when the member could not be fetched, which for a
/// member's own statistics means the default colour (another member's
/// statistics always fetch the member, and a failure there ends the command).
pub fn bar_color(donator: bool, member_colour: Option<Option<(u8, u8, u8)>>, default: (u8, u8, u8, u8)) -> (c: (
    u8,
    u8,
    u8,
    u8,
))
    ensures
        c == (if !donator {
            default
        } else {
            match member_colour {
                None => default,
                Some(Some((r, g, b))) => (r, g, b, 255u8),
                Some(None) => (default.0, default.1, default.2, 255u8),
            }
        }),
{
    if !donator {
        return default;
    }
    match member_colour {
        None => default,
        Some(Some((r, g, b))) => (r, g, b, 255u8),
        Some(None) => (default.0, default.1, default.2, 255u8),
    }
}

} // verus!

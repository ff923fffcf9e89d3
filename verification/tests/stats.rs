use bloom_bot::datetime::Instant;
use bloom_bot::stats::{leaderboard_table, series_sum, BestData, LeaderboardType, LeaderboardUser, SortBy, Timeframe};
use bloom_bot::time::Timeframe as StatsTimeframe;

fn best(secs: i64, total: i64) -> BestData {
    BestData { date: Instant { secs, nanos: 0 }, total }
}

#[test]
fn time_bests_leave_out_zero_units() {
    assert_eq!(best(0, 3725).total_to_hms(), "1 h 2 m 5 s");
    assert_eq!(best(0, 3600).total_to_hms(), "1 h");
    assert_eq!(best(0, 59).total_to_hms(), "59 s");
    assert_eq!(best(0, 0).total_to_hms(), "");
}

#[test]
fn long_time_bests_use_singular_for_one() {
    assert_eq!(best(0, 3661).total_to_hms_full(), "1 hour 1 minute 1 second");
    assert_eq!(best(0, 7322).total_to_hms_full(), "2 hours 2 minutes 2 seconds");
    assert_eq!(best(0, 120).total_to_hms_full(), "2 minutes");
}

#[test]
fn session_bests() {
    assert_eq!(best(0, 1).total_to_sessions(), "1 session");
    assert_eq!(best(0, 12).total_to_sessions(), "12 sessions");
    assert_eq!(best(0, 0).total_to_sessions(), "0 sessions");
}

#[test]
fn dates_of_bests() {
    // 2024-01-29 00:00:00 UTC, a Monday.
    let d = best(1706486400, 0);
    assert_eq!(d.date_to_day().unwrap(), "January 29, 2024");
    assert_eq!(d.date_to_week().unwrap(), "January 29-February 04, 2024");
    assert_eq!(d.date_to_month().unwrap(), "January 2024");
    assert_eq!(d.date_to_year().unwrap(), "2024");
    // 2024-01-08, a week inside one month.
    let d = best(1704672000, 0);
    assert_eq!(d.date_to_week().unwrap(), "January 08-14, 2024");
    assert!(best(i64::MAX, 0).date_to_week().is_none());
}

#[test]
fn leaderboard_query_text() {
    let q = LeaderboardUser::stats(StatsTimeframe::Weekly, SortBy::Sessions, LeaderboardType::Top10);
    assert_eq!(q.limit, 10);
    assert_eq!(
        q.sql,
        "SELECT name, minutes, sessions, streak, anonymous_tracking, streaks_active, streaks_private FROM weekly_leaderboard WHERE guild = $1 ORDER BY sessions DESC LIMIT $2"
    );
    let q = LeaderboardUser::stats(StatsTimeframe::Daily, SortBy::Streak, LeaderboardType::Top5);
    assert_eq!(q.limit, 5);
    assert!(q.sql.ends_with("FROM daily_leaderboard WHERE guild = $1 ORDER BY streak DESC LIMIT $2"));
}

#[test]
fn series_totals() {
    let xs = vec![
        Timeframe::new(Some(10), Some(1)),
        Timeframe::new(None, None),
        Timeframe::new(Some(5), Some(2)),
    ];
    assert_eq!(series_sum(&xs, true), Some(15));
    assert_eq!(series_sum(&xs, false), Some(3));
    let big = vec![Timeframe::new(Some(i64::MAX), None), Timeframe::new(Some(1), None)];
    assert_eq!(series_sum(&big, true), None);
}

#[test]
fn leaderboard_tables_keep_the_header_and_the_top() {
    let rows: Vec<Vec<String>> = (0..8).map(|i| vec![format!("row{i}")]).collect();
    let t = leaderboard_table(rows.clone(), LeaderboardType::Top5, SortBy::Sessions);
    assert_eq!(t.title, "Leaderboard (Top 5)");
    assert_eq!(t.rows, rows[..6].to_vec());
    assert_eq!(t.highlighted, vec![(1, 2), (2, 2), (3, 2), (4, 2), (5, 2), (6, 2)]);
    let t = leaderboard_table(rows.clone(), LeaderboardType::Top10, SortBy::Streak);
    assert_eq!(t.title, "Leaderboard (Top 10)");
    assert_eq!(t.rows.len(), 8);
    assert_eq!(t.highlighted[7], (8, 3));
}

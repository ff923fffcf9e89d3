use bloom_bot::datetime::Instant;
use bloom_bot::import::{
    check_inserted, check_qualifying, current_data, json_conversion, needs_all_entries, pings_member,
    problem_notice, ImportProblem, ImportType, JsonConversion,
};
use bloom_bot::meditation::Meditation;
use bloom_bot::stats::{bar_color, is_donator};
use bloom_bot::streak::compute_streak;

fn session(id: &str, secs: i64) -> Meditation {
    Meditation {
        id: id.to_string(),
        guild_id: 1,
        user_id: 2,
        minutes: 10,
        seconds: 0,
        occurred_at: Instant { secs, nanos: 0 },
    }
}

#[test]
fn finch_files_are_converted_by_name() {
    assert_eq!(json_conversion("TimerSession.json"), JsonConversion::FinchTimer);
    assert_eq!(json_conversion("BreathingSession.json"), JsonConversion::FinchBreathing);
    assert_eq!(json_conversion("export.csv"), JsonConversion::Unchanged);
}

#[test]
fn new_entries_import_checks_the_latest_session_only() {
    assert!(!needs_all_entries(ImportType::NewEntries));
    assert!(needs_all_entries(ImportType::AllEntries));
    let v = current_data(ImportType::NewEntries, session("L", 50), vec![session("A", 10), session("B", 20)]);
    assert_eq!(v.len(), 1);
    assert_eq!(v[0].id, "L");
    let v = current_data(ImportType::AllEntries, session("L", 50), vec![session("A", 10), session("B", 20)]);
    assert_eq!(v.len(), 2);
    assert_eq!(v[0].id, "A");
    assert_eq!(v[1].id, "B");
}

#[test]
fn import_without_qualifying_rows_stops() {
    assert_eq!(check_qualifying(0), Err(ImportProblem::NoQualifyingEntries));
    assert_eq!(check_qualifying(3), Ok(()));
    assert_eq!(check_inserted(0), Err(ImportProblem::ZeroEntriesAdded));
    assert_eq!(check_inserted(1), Ok(()));
}

#[test]
fn import_problem_notices_carry_the_info_emoji() {
    assert_eq!(
        problem_notice(ImportProblem::NoQualifyingEntries),
        "<:mminfo:1279517292455264359> No qualifying entries found."
    );
    assert_eq!(
        problem_notice(ImportProblem::ZeroEntriesAdded),
        "<:mminfo:1279517292455264359> No entries added. Please try again or contact staff for assistance."
    );
}

#[test]
fn import_notice_spares_members_with_the_no_pings_role() {
    assert!(!pings_member(Some(&vec![5, 1128156466273058906])));
    assert!(pings_member(Some(&vec![5])));
    assert!(pings_member(None));
}

#[test]
fn donators_have_the_patreon_or_kofi_role() {
    assert!(is_donator(&vec![543900027928444935]));
    assert!(is_donator(&vec![1, 1083219974509826048]));
    assert!(!is_donator(&vec![1, 2]));
}

#[test]
fn chart_bars_take_a_donators_name_colour() {
    let default = (253, 172, 46, 255);
    assert_eq!(bar_color(false, Some(Some((1, 2, 3))), default), default);
    assert_eq!(bar_color(true, Some(Some((1, 2, 3))), default), (1, 2, 3, 255));
    assert_eq!(bar_color(true, Some(None), (9, 8, 7, 100)), (9, 8, 7, 255));
    assert_eq!(bar_color(true, None, (9, 8, 7, 100)), (9, 8, 7, 100));
}

#[test]
fn streak_bounds_hold_on_a_broken_history() {
    let s = compute_streak(5, &vec![0, 3, 4, 5, 6, 7, 8]);
    assert_eq!(s.current, 0);
    assert_eq!(s.longest, 5);
    let s = compute_streak(2, &vec![1, 2, 3]);
    assert_eq!(s.current, 3);
    assert_eq!(s.longest, 3);
}

use bloom_bot::streak::compute_streak;

#[test]
fn recent_run_is_the_current_streak() {
    let s = compute_streak(0, &vec![0, 1, 2, 5, 6]);
    assert_eq!(s.current, 3);
    assert_eq!(s.longest, 3);
}

#[test]
fn a_gap_of_three_days_breaks_the_streak() {
    let s = compute_streak(0, &vec![3, 4, 5]);
    assert_eq!(s.current, 0);
    assert_eq!(s.longest, 3);
}

#[test]
fn yesterday_still_counts() {
    let s = compute_streak(0, &vec![1, 2]);
    assert_eq!(s.current, 2);
}

#[test]
fn a_single_day_is_no_streak() {
    let s = compute_streak(0, &vec![0]);
    assert_eq!(s.current, 0);
    assert_eq!(s.longest, 0);
    let s = compute_streak(0, &vec![]);
    assert_eq!((s.current, s.longest), (0, 0));
}

#[test]
fn longest_is_found_among_older_runs() {
    let s = compute_streak(0, &vec![0, 1, 5, 6, 7, 8, 20]);
    assert_eq!(s.current, 2);
    assert_eq!(s.longest, 4);
}

#[test]
fn stored_longest_never_decreases() {
    let s = compute_streak(10, &vec![0, 1, 2]);
    assert_eq!(s.current, 3);
    assert_eq!(s.longest, 10);
    let s = compute_streak(2, &vec![0, 1, 2, 3]);
    assert_eq!(s.longest, 4);
}

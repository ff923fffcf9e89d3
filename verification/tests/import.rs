use bloom_bot::datetime::Instant;
use bloom_bot::import::{
    apple_health, finch_breathing, finch_meditation, insight_timer, mindfulness_coach, time_overlaps,
    waking_up, AppleHealthRecord, BloomRecord, FinchBreathingSessionRecord,
    FinchTimerSessionRecord, DetectError, ImportError, ImportType, InsightTimerRecord, MindfulnessCoachRecord,
    Source, SqlQueries, WakingUpRecord,
};
use bloom_bot::meditation::Meditation;

fn at(secs: i64) -> Instant {
    Instant { secs, nanos: 0 }
}

fn existing(secs: i64, minutes: i32) -> Meditation {
    Meditation {
        id: "X".to_string(),
        guild_id: 1,
        user_id: 2,
        minutes,
        seconds: 0,
        occurred_at: at(secs),
    }
}

fn apple(app: &str, secs: i64, minutes: i32, seconds: i32) -> AppleHealthRecord {
    AppleHealthRecord {
        app_name: app.to_string(),
        occurred_at: at(secs),
        meditation_minutes: minutes,
        meditation_seconds: seconds,
    }
}

#[test]
fn overlapping_sessions_on_the_same_day() {
    // 10:00 for 30 minutes against 10:20 and 10:31.
    let e = existing(36000, 30);
    assert!(time_overlaps(&e, at(36000 + 1200), 10));
    assert!(!time_overlaps(&e, at(36000 + 1860), 10));
    // A session that ends before the existing one starts.
    assert!(!time_overlaps(&e, at(36000 - 1200), 10));
    // The next day never overlaps.
    assert!(!time_overlaps(&e, at(36000 + 86400), 600));
}

#[test]
fn apple_health_skips_old_and_overlapping_rows() {
    let rows = vec![
        apple("Calm", 1000, 10, 5),
        apple("Headspace", 200000, 20, 0),
        apple("Calm", 36000, 15, 30),
    ];
    let current = vec![existing(36000 + 300, 10)];
    let imp = apple_health(&rows, &current, at(5000), ImportType::NewEntries).unwrap();
    assert_eq!(imp.data, vec![BloomRecord { occurred_at: at(200000), meditation_minutes: 20, meditation_seconds: 0 }]);
    assert_eq!((imp.minutes, imp.seconds), (20, 0));
    assert_eq!(imp.source, "Apple Health Mindful Sessions (Calm, Headspace)");
    let all = apple_health(&rows, &vec![], at(5000), ImportType::AllEntries).unwrap();
    assert_eq!(all.data.len(), 3);
    assert_eq!((all.minutes, all.seconds), (45, 35));
}

#[test]
fn apple_health_totals_must_fit() {
    let rows = vec![apple("A", 0, i32::MAX, 0), apple("A", 1000000, 1, 0)];
    assert_eq!(
        apple_health(&rows, &vec![], at(0), ImportType::AllEntries).err(),
        Some(ImportError::TotalOverflow)
    );
}

fn insight(start: &str, duration: &str, activity: &str) -> InsightTimerRecord {
    InsightTimerRecord {
        start_time: start.to_string(),
        duration: duration.to_string(),
        preset: None,
        activity: activity.to_string(),
    }
}

#[test]
fn insight_timer_reads_hours_minutes_seconds() {
    let rows = vec![
        insight("01/15/2024 07:30:00", "1:05:20", "Meditation"),
        insight("01/16/2024 07:30:00", "0:10:00", "Yoga"),
        insight("not a date", "0:10:00", "瞑想"),
    ];
    let imp = insight_timer(&rows, &vec![], at(0), ImportType::AllEntries).unwrap();
    assert_eq!(imp.source, "Insight Timer");
    assert_eq!(imp.data.len(), 1);
    assert_eq!(imp.data[0].meditation_minutes, 65);
    assert_eq!(imp.data[0].meditation_seconds, 20);
    assert_eq!(imp.data[0].occurred_at, at(1705303800));
}

#[test]
fn insight_timer_errors() {
    let short = vec![insight("01/15/2024 07:30:00", "10:00", "Meditation")];
    assert_eq!(
        insight_timer(&short, &vec![], at(0), ImportType::AllEntries).err(),
        Some(ImportError::MissingDurationField)
    );
    let bad = vec![insight("01/15/2024 07:30:00", "0:x:00", "PracticeType.Meditation")];
    assert_eq!(
        insight_timer(&bad, &vec![], at(0), ImportType::AllEntries).err(),
        Some(ImportError::InvalidNumber)
    );
}

#[test]
fn mindfulness_coach_minutes_from_first_word() {
    let rows = vec![
        MindfulnessCoachRecord { date: "2024-01-15".to_string(), duration: "12 minutes".to_string() },
        MindfulnessCoachRecord { date: "2024-01-16".to_string(), duration: "   ".to_string() },
    ];
    let imp = mindfulness_coach(&rows, at(0), ImportType::AllEntries).unwrap();
    assert_eq!(imp.source, "VA Mindfulness Coach");
    assert_eq!(imp.data, vec![BloomRecord { occurred_at: at(1705276800), meditation_minutes: 12, meditation_seconds: 0 }]);
    let bad = vec![MindfulnessCoachRecord { date: "2024-01-15".to_string(), duration: "ten minutes".to_string() }];
    assert_eq!(mindfulness_coach(&bad, at(0), ImportType::AllEntries).err(), Some(ImportError::InvalidNumber));
}

#[test]
fn waking_up_duration_in_seconds() {
    let rows = vec![WakingUpRecord {
        date: "01/15/2024".to_string(),
        title: "Intro".to_string(),
        duration: "754".to_string(),
    }];
    let imp = waking_up(&rows, at(0), ImportType::AllEntries).unwrap();
    assert_eq!(imp.source, "Waking Up");
    assert_eq!((imp.minutes, imp.seconds), (12, 34));
    let newer = waking_up(&rows, at(1705276800), ImportType::NewEntries).unwrap();
    assert!(newer.data.is_empty());
}

#[test]
fn finch_sessions() {
    let breathing = vec![
        FinchBreathingSessionRecord {
            breathing_type: "box".to_string(),
            duration: 125,
            start_time: "Mon, 15 Jan 2024 07:30:00".to_string(),
            completed_time: "Mon, 15 Jan 2024 07:32:05".to_string(),
        },
        FinchBreathingSessionRecord {
            breathing_type: "box".to_string(),
            duration: 30,
            start_time: "Mon, 15 Jan 2024 09:30:00".to_string(),
            completed_time: "Mon, 15 Jan 2024 09:30:30".to_string(),
        },
    ];
    let imp = finch_breathing(&breathing, &vec![], at(0), ImportType::AllEntries).unwrap();
    assert_eq!(imp.source, "Finch Breathing Sessions");
    assert_eq!(imp.data.len(), 1);
    assert_eq!((imp.data[0].meditation_minutes, imp.data[0].meditation_seconds), (2, 5));

    let timers = vec![
        FinchTimerSessionRecord {
            timer_type: 0,
            selected_duration: 600,
            start_time: "Mon, 15 Jan 2024 07:30:00".to_string(),
            completed_time: "Mon, 15 Jan 2024 07:45:30".to_string(),
        },
        FinchTimerSessionRecord {
            timer_type: 0,
            selected_duration: 300,
            start_time: "Tue, 16 Jan 2024 07:30:00".to_string(),
            completed_time: String::new(),
        },
        FinchTimerSessionRecord {
            timer_type: 1,
            selected_duration: 300,
            start_time: "Wed, 17 Jan 2024 07:30:00".to_string(),
            completed_time: String::new(),
        },
    ];
    let imp = finch_meditation(&timers, &vec![], at(0), ImportType::AllEntries).unwrap();
    assert_eq!(imp.source, "Finch Meditation Sessions");
    assert_eq!(imp.data.len(), 2);
    assert_eq!((imp.data[0].meditation_minutes, imp.data[0].meditation_seconds), (15, 30));
    assert_eq!((imp.data[1].meditation_minutes, imp.data[1].meditation_seconds), (5, 0));
}

#[test]
fn sources_are_detected_from_headers() {
    let h = |v: &[&str]| v.iter().map(|s| s.to_string()).collect::<Vec<String>>();
    assert_eq!(Source::autodetect(&h(&["Finished On", "Title", "Duration"])), Ok(Source::WakingUp));
    assert_eq!(
        Source::autodetect(&h(&["Date", "Exercise", "Duration", "Comments"])),
        Ok(Source::MindfulnessCoach)
    );
    assert_eq!(
        Source::autodetect(&h(&["Started At", "Duration"])),
        Err(DetectError::UnrecognizedHeaders(h(&["Started At", "Duration"])))
    );
    assert_eq!(
        Source::autodetect_csv(b"breathing_type,duration,start_time,completed_time\nbox,60,a,b\n"),
        Ok(Source::FinchBreathing)
    );
    assert_eq!(
        Source::autodetect_csv(b"App Name,Start Time,Minutes,Seconds\n"),
        Ok(Source::AppleHealth)
    );
    let e = Source::autodetect_csv(b"a,b\n1,2\n").unwrap_err();
    assert_eq!(e, DetectError::UnrecognizedHeaders(h(&["a", "b"])));
    assert_eq!(e.message(), "Unrecognized headers: StringRecord([\"a\", \"b\"])");
    assert!(matches!(Source::autodetect_csv(b"\xff,b\n"), Err(DetectError::UnreadableCsv(_))));
    assert_eq!(
        DetectError::UnreadableCsv("CSV error: record 1".to_string()).message(),
        "CSV error: record 1"
    );
}

#[test]
fn sql_for_imported_sessions() {
    let recs = vec![
        BloomRecord { occurred_at: at(0), meditation_minutes: 10, meditation_seconds: 5 },
        BloomRecord { occurred_at: at(86400), meditation_minutes: 3, meditation_seconds: 0 },
    ];
    let q = SqlQueries::generate(7, 8, &recs).unwrap();
    assert!(q.insert.starts_with(
        "INSERT INTO meditation (record_id, user_id, meditation_minutes, meditation_seconds, guild_id, occurred_at) VALUES ('"
    ));
    assert!(q.insert.contains("', '8', '10', '5', '7', '1970-01-01T00:00:00+00:00'),"));
    assert!(q.insert.ends_with("', '8', '3', '0', '7', '1970-01-02T00:00:00+00:00');"));
    assert!(q.delete.starts_with("DELETE FROM meditation WHERE record_id IN ('"));
    assert!(q.delete.ends_with("');"));
    assert_eq!(q.delete.len(), "DELETE FROM meditation WHERE record_id IN (".len() + 2 * 26 + 8);
}

#[test]
fn session_titles() {
    let m = Meditation::new(1, 2, 1, 0, at(0));
    assert_eq!(m.title(), "1 minute");
    let m = m.with_new(12, 1, at(60));
    assert_eq!(m.title(), "12 minutes 1 second");
    assert_eq!(m.body().unwrap(), format!("Date: `1970-01-01 00:01`\nID: `{}`", m.id));
}

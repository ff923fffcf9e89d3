use bloom_bot::common::{decode_id_row, print_command, MinimalCommand};
use bloom_bot::datetime::Instant;
use bloom_bot::import::{
    check_message_import, check_upload, import_file_name, import_log, import_success_message,
    ImportProblem,
};
use bloom_bot::pagination::{page_button, PageEntry, PageMove, Paginator};
use bloom_bot::rows::{plan_recipient_update, Recipient, RecipientUpdate};
use bloom_bot::stats::{can_view_stats, footer_streak, private_stats_message, stats_embed, StatsType};
use bloom_bot::time::Timeframe;
use bloom_bot::tracking::{large_add_log, large_add_prompt, offset_error_message, private_add_message};
use bloom_bot::tracking_profile::{Privacy, Status, TrackingProfile};

#[test]
fn ids_survive_being_stored_as_text() {
    for n in [0u64, 7, 10, 1300863845429936139, u64::MAX] {
        assert!(matches!(decode_id_row(Some(&n.to_string()), "id"), Ok(x) if x == n));
    }
}

#[test]
fn commands_are_mentioned_when_registered() {
    let cmds = vec![
        MinimalCommand { name: "stats".to_string(), id: 1 },
        MinimalCommand { name: "glossary".to_string(), id: 2 },
        MinimalCommand { name: "glossary".to_string(), id: 3 },
    ];
    assert_eq!(print_command(Some(&cmds), "glossary info"), "</glossary info:2>");
    assert_eq!(print_command(Some(&cmds), "quotes"), "`/quotes`");
    assert_eq!(print_command(None, "stats"), "`/stats`");
}

#[test]
fn navigation_buttons() {
    assert_eq!(page_button("42next", 42), Some(PageMove::Next));
    assert_eq!(page_button("42prev", 42), Some(PageMove::Previous));
    assert_eq!(page_button("43next", 42), None);
    let entries: Vec<PageEntry> = (0..5).map(|i| PageEntry::new(format!("{i}"), String::new())).collect();
    let p = Paginator::new("t", &entries, 2);
    assert!(p.shows_navigation());
    assert_eq!(p.navigate(2, PageMove::Next), 0);
    assert_eq!(p.navigate(0, PageMove::Previous), 2);
    assert!(!Paginator::new("t", &entries, 10).shows_navigation());
}

#[test]
fn recipient_updates() {
    let existing = Recipient::new(1, 2, Some(true), None, 2);
    assert!(matches!(plan_recipient_update(1, 2, Some(&existing), None, None, None), RecipientUpdate::NoInput));
    assert!(matches!(plan_recipient_update(1, 2, None, Some(true), None, None), RecipientUpdate::NeedsKeyCount));
    match plan_recipient_update(1, 2, None, None, Some(false), Some(1)) {
        RecipientUpdate::Add(r) => assert_eq!((r.total_keys, r.donator_perk, r.challenge_prize), (1, Some(false), None)),
        _ => panic!("expected a new record"),
    }
    assert!(matches!(plan_recipient_update(1, 2, Some(&existing), None, None, Some(0)), RecipientUpdate::ConfirmRemoval));
    match plan_recipient_update(1, 2, Some(&existing), None, Some(true), None) {
        RecipientUpdate::Update(r) => assert_eq!((r.challenge_prize, r.donator_perk, r.total_keys), (Some(true), Some(true), 2)),
        _ => panic!("expected an update"),
    }
}

#[test]
fn import_command_checks() {
    assert!(check_upload(false, 262_144).is_ok());
    assert_eq!(check_upload(false, 262_145), Err(ImportProblem::FilesizeExceedsLimit));
    assert!(check_upload(true, 10_000_000).is_ok());
    assert_eq!(check_message_import(None, true, 1, 1, None), Err(ImportProblem::AttachmentMissing));
    assert_eq!(check_message_import(Some(10), false, 1, 2, None), Err(ImportProblem::ImportOtherUser));
    assert_eq!(check_message_import(Some(300_000), false, 1, 1, None), Err(ImportProblem::FilesizeExceedsLimit));
    assert_eq!(check_message_import(Some(10), false, 1, 1, Some(9)), Ok(1));
    assert_eq!(check_message_import(Some(300_000), true, 1, 2, Some(9)), Ok(9));
    assert_eq!(ImportProblem::NoQualifyingEntries.message(), "No qualifying entries found.");
    assert!(ImportProblem::UnrecognizedFormat.message().starts_with("**Unrecognized file format.**\n-# Please use"));
    assert_eq!(
        import_success_message("1h 5m", 1, "Waking Up"),
        "<:mmcheck:1279517233877483601> Successfully added a total of 1h 5m from 1 entry imported from Waking Up."
    );
    assert!(import_success_message("5m", 3, "X").contains("from 3 entries imported"));
    let log = import_log(7, 3, 65, "Waking Up", "ann", 8);
    assert_eq!(log.description, "**User**: <@7>\n**Entries Added**: 3\n**Total Time**: 65 minutes\n**Source**: Waking Up");
    assert_eq!(log.footer.as_deref(), Some("Added by ann (8)"));
    assert_eq!(import_file_name(7, "01ABC"), "import_7_01ABC.txt");
}

#[test]
fn stats_embeds() {
    let e = stats_embed("Ann", StatsType::MeditationMinutes, Timeframe::Weekly, 500, 20, 130, 9, Some(4));
    assert_eq!(e.title, "Stats for Ann");
    assert_eq!(e.author, "Ann's Stats");
    assert_eq!(
        e.fields,
        vec![
            ("All-Time Meditation Minutes".to_string(), "```500```".to_string()),
            ("Minutes The Past 12 Weeks".to_string(), "```130```".to_string()),
        ]
    );
    assert_eq!(e.footer, "Avg. weekly minutes: 10・Current streak: 4");
    let e = stats_embed("Server", StatsType::MeditationCount, Timeframe::Daily, 500, 20, 130, 9, None);
    assert_eq!(e.fields[0].0, "All-Time Session Count");
    assert_eq!(e.fields[1], ("Sessions The Past 12 Days".to_string(), "```9```".to_string()));
    assert_eq!(e.footer, "Average daily sessions: 0");
    let private = TrackingProfile::default().stats_privacy(Privacy::Private).streak_privacy(Privacy::Private);
    assert!(!can_view_stats(&private, false, false));
    assert!(can_view_stats(&private, true, false));
    assert!(can_view_stats(&private, false, true));
    assert_eq!(footer_streak(&private, true, true, 5), Some(5));
    assert_eq!(footer_streak(&private, true, false, 5), None);
    let off = TrackingProfile::default().streak_status(Status::Disabled);
    assert_eq!(footer_streak(&off, true, true, 5), None);
    assert_eq!(footer_streak(&TrackingProfile::default(), false, false, 5), Some(5));
    assert_eq!(private_stats_message("Ann"), "Sorry, Ann's stats are set to private.");
}

#[test]
fn add_texts() {
    assert_eq!(
        private_add_message(20, 400),
        "Added **20 minutes** to your meditation time! Your total meditation time is now 400 minutes :tada:"
    );
    assert_eq!(large_add_prompt(301), "Are you sure you want to add **301** minutes to your meditation time?");
    let log = large_add_log(5, "ann", 400, 0);
    assert_eq!(log.description, "**User**: <@5>\n**Time**: 400 minutes");
    let log = large_add_log(5, "ann", 400, 3);
    assert_eq!(log.description, "**User**: <@5>\n**Time**: 400 minutes 3 second(s)");
    assert_eq!(log.footer.as_deref(), Some("Added by ann (5)"));
    assert!(offset_error_message("x").ends_with("based on your choice: x"));
    let t = Instant { secs: 1000, nanos: 5 };
    assert_eq!(t.plus_minutes(-60), Instant { secs: -2600, nanos: 5 });
}

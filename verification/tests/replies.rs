use bloom_bot::coffee::{coffee_reply, BABYCOMEBACK, TEACUPS};
use bloom_bot::common::MinimalCommand;
use bloom_bot::community_sit::{
    event_answer, first_endable_as, first_startable_as, no_eligible_event, not_present, EventStatus, HostedEvent, SitEvent,
};
use bloom_bot::datetime::Instant;
use bloom_bot::glossary::{
    embedding_text, glossary_info, missing_term_notice, needs_new_embedding, no_terms_found, search_footer, search_result_field,
    search_title, suggestion_log, term_embed, Term,
};
use bloom_bot::meditation::{check_removal, entry_not_found_message, Meditation, RemovalProblem};
use bloom_bot::roles::{StreakRoles, TimeSumRoles};
use bloom_bot::rows::{
    check_eligibility, completion_message, completion_status, course_not_found_message, graduation_message,
    Completion, CourseRoleError, RoleInfo,
};
use bloom_bot::streak::{streak_reply, Streak};
use bloom_bot::tracking::{
    confirm_button_ids, confirm_press, confirmation_outcome, congrats_destination, entry_time, role_update_error,
    streak_role_congrats, time_role_congrats, tracking_change_message, ConfirmPress, CongratsDestination,
};

const MMINFO: &str = "<:mminfo:1279517292455264359>";

fn term(name: &str) -> Term {
    Term {
        guild_id: 1,
        name: name.to_string(),
        meaning: format!("Meaning of {name}"),
        usage: None,
        links: None,
        category: None,
        aliases: None,
    }
}

#[test]
fn coffee_answers_depend_on_the_member() {
    assert_eq!(coffee_reply(1, true), "☕");
    assert_eq!(coffee_reply(1, false), "⚰️");
    assert_eq!(coffee_reply(BABYCOMEBACK, false), "<:derpman:1309907402958700615>");
    assert_eq!(coffee_reply(TEACUPS, true), "🍵");
}

#[test]
fn streak_replies_respect_privacy() {
    let s = Streak { current: 3, longest: 5 };
    let r = streak_reply(s, None, true, false, false);
    assert_eq!(r.text, "Your current meditation streak is 3 days. Your longest streak is 5 days.");
    assert!(!r.ephemeral);
    let r = streak_reply(Streak { current: 5, longest: 5 }, Some("bob"), false, false, true);
    assert_eq!(r.text, "bob's current meditation streak is 5 days. This is bob's longest streak.");
    assert!(r.ephemeral);
    let r = streak_reply(s, Some("bob"), true, false, false);
    assert_eq!(r.text, "Sorry, bob's meditation streak is set to private.");
    assert!(r.ephemeral);
    let r = streak_reply(s, Some("bob"), true, true, false);
    assert_eq!(r.text, "bob's current **private** meditation streak is 3 days. bob's longest streak is 5 days.");
    assert!(r.ephemeral);
}

#[test]
fn role_congratulations() {
    assert_eq!(congrats_destination(true, false), CongratsDestination::Reply(false));
    assert_eq!(congrats_destination(true, true), CongratsDestination::Reply(true));
    assert_eq!(congrats_destination(false, true), CongratsDestination::Reply(true));
    assert_eq!(congrats_destination(false, false), CongratsDestination::TrackingChannel);
    assert_eq!(
        time_role_congrats(5, TimeSumRoles::One, true, false, true),
        ":tada: Congrats to <@5>, your hard work is paying off! Your total meditation minutes have given you the <@&504641899890475018> role!"
    );
    assert_eq!(
        time_role_congrats(5, TimeSumRoles::One, false, false, true),
        ":tada: Congrats <@5>, your hard work is paying off! Your total meditation minutes have given you the @⭐ role!"
    );
    assert_eq!(
        streak_role_congrats(5, 7, StreakRoles::Egg, false, true, false),
        ":tada: Congrats to <@5>, your hard work is paying off! Your current streak is 7, giving you the <@&857242224390832158> role!"
    );
    assert_eq!(
        streak_role_congrats(5, 7, StreakRoles::Egg, false, false, true),
        ":tada: Congrats to <@5>, your hard work is paying off! Your current streak is 7, giving you the @🥚 role!"
    );
    assert_eq!(
        role_update_error(true),
        format!("{MMINFO} An error occured while updating your streak roles. Your entry has been saved, but your roles have not been updated. Please contact a moderator.")
    );
}

#[test]
fn large_entries_wait_for_confirmation() {
    let (c, n) = confirm_button_ids(12);
    assert_eq!((c.as_str(), n.as_str()), ("12confirm", "12cancel"));
    assert_eq!(confirm_press("12confirm", &c, &n), ConfirmPress::Confirm);
    assert_eq!(confirm_press("12cancel", &c, &n), ConfirmPress::Cancel);
    assert_eq!(confirm_press("13confirm", &c, &n), ConfirmPress::Unrelated);
    assert_eq!(confirmation_outcome(false, true, 400, 900, "public"), "Cancelled.");
    assert_eq!(confirmation_outcome(true, false, 400, 900, "public"), "public");
    assert_eq!(
        confirmation_outcome(true, true, 400, 900, "public"),
        "Added **400 minutes** to your meditation time! Your total meditation time is now 900 minutes :tada:"
    );
}

#[test]
fn entries_with_an_offset_are_moved_in_time() {
    let now = Instant { secs: 1_700_000_000, nanos: 5 };
    assert_eq!(entry_time(now, 0), None);
    assert_eq!(entry_time(now, -300), Some(Instant { secs: 1_700_000_000 - 18_000, nanos: 5 }));
}

#[test]
fn anonymous_tracking_messages() {
    assert_eq!(
        tracking_change_message(true, true),
        "<:mmcheck:1279517233877483601> Anonymous tracking successfully turned **on**."
    );
    assert_eq!(tracking_change_message(false, false), "Anonymous tracking already turned **off**. No changes made.");
}

#[test]
fn term_embeds_show_every_part() {
    let mut t = term("Metta");
    t.usage = Some("Practise metta daily.".to_string());
    t.links = Some(vec!["https://a".to_string(), "https://b".to_string()]);
    t.aliases = Some(vec!["Maitri".to_string(), "Loving-kindness".to_string()]);
    t.category = Some("Practice".to_string());
    let e = term_embed(&t);
    assert_eq!(e.title, "Metta");
    assert_eq!(e.description, "Meaning of Metta");
    assert_eq!(
        e.fields,
        vec![
            ("Example of Usage:".to_string(), "Practise metta daily.".to_string()),
            ("Related Resources:".to_string(), "0. https://a\n1. https://b\n".to_string()),
            ("Aliases:".to_string(), "Maitri, Loving-kindness".to_string()),
        ]
    );
    assert_eq!(e.footer.as_deref(), Some("Categories: Practice"));
    let mut bare = term("Sati");
    bare.links = Some(Vec::new());
    let e = term_embed(&bare);
    assert!(e.fields.is_empty());
    assert_eq!(e.footer, None);
}

#[test]
fn glossary_info_when_the_term_is_missing() {
    let cmds = vec![MinimalCommand { name: "glossary".to_string(), id: 9 }];
    let e = glossary_info("metaa", None, &Vec::new(), Some(&cmds));
    assert_eq!(e.title, "Term not found");
    assert_eq!(e.description, "The term `metaa` was not found in the glossary.");
    assert!(e.fields.is_empty());
    let mut close = term("Metta");
    close.category = Some("Practice".to_string());
    let e = glossary_info("metaa", None, &vec![close], Some(&cmds));
    assert_eq!(e.title, "Metta");
    assert_eq!(
        e.footer.as_deref(),
        Some("Categories: Practice\n\n*You searched for 'metaa'. The closest term available was 'Metta'.")
    );
    let many: Vec<Term> = ["A", "B", "C", "D", "E", "F"].iter().map(|n| term(n)).collect();
    let e = glossary_info("x", None, &many, Some(&cmds));
    assert_eq!(
        e.fields,
        vec![(
            "Did you mean one of these?".to_string(),
            "`A`\n`B`\n`C`\n`D`\n`E`\n\n*Try using </glossary search:9> to take advantage of a more powerful search.*"
                .to_string()
        )]
    );
    let found = term("Sati");
    let e = glossary_info("sati", Some(&found), &many, None);
    assert_eq!(e.title, "Sati");
    assert_eq!(e.footer, None);
}

#[test]
fn search_results_fit_their_fields() {
    let (name, text) = search_result_field(0, "Metta", "Kindness.", "High");
    assert_eq!(name, "Term 1: `Metta`");
    assert_eq!(text, "Kindness.\n```Estimated relevance: High```\n** **");
    let long = "m".repeat(980);
    let (_, text) = search_result_field(2, "X", &long, "Low");
    assert_eq!(text, format!("{}...\n```Estimated relevance: Low```\n** **", "m".repeat(976)));
    let fits = "m".repeat(979);
    let (_, text) = search_result_field(2, "X", &fits, "Low");
    assert_eq!(text, format!("{fits}\n```Estimated relevance: Low```\n** **"));
    assert_eq!(search_title("calm"), "Search results for `calm`");
    assert_eq!(no_terms_found(), "No terms were found. Try browsing the glossary with `/glossary list`.");
    assert_eq!(search_footer(42), "Search took 42ms");
    assert_eq!(
        suggestion_log("Jhana", "bob", 3),
        ("**Suggestion**: Jhana".to_string(), "Suggested by bob (3)".to_string())
    );
    assert_eq!(embedding_text("Metta", "Kindness"), "Metta Kindness");
    assert!(needs_new_embedding("a", "b"));
    assert!(!needs_new_embedding("a", "a"));
}

fn event(name: &str, status: EventStatus, start: i64) -> SitEvent {
    SitEvent {
        id: 1,
        name: name.to_string(),
        description: None,
        status,
        start_time: Instant { secs: start, nanos: 0 },
        image: None,
        channel_id: Some(3),
    }
}

#[test]
fn book_club_meetings_start_within_a_day() {
    let now = Instant { secs: 1_000_000, nanos: 0 };
    let events = vec![
        event("Sunday Silent Sit", EventStatus::Scheduled, 1_000_100),
        event("Reading the Mahabharata", EventStatus::Scheduled, 1_000_000 + 86_400),
        event("Reading the Mahabharata", EventStatus::Scheduled, 1_000_000 + 86_399),
        event("Reading the Mahabharata", EventStatus::Active, 1_000_000),
    ];
    assert_eq!(first_startable_as(HostedEvent::BookClub, &events, now), Some(2));
    assert_eq!(first_endable_as(HostedEvent::BookClub, &events), Some(3));
    assert_eq!(first_startable_as(HostedEvent::CommunitySit, &events, now), Some(0));
    assert_eq!(first_endable_as(HostedEvent::CommunitySit, &events), None);
}

#[test]
fn hosted_event_answers() {
    assert_eq!(event_answer(HostedEvent::CommunitySit, true, true), format!("{MMINFO} Event started. Enjoy your sit!"));
    assert_eq!(event_answer(HostedEvent::CommunitySit, false, false), "Cancelled.");
    assert_eq!(event_answer(HostedEvent::BookClub, false, true), format!("{MMINFO} Event ended. Thank you for hosting!"));
    assert_eq!(event_answer(HostedEvent::BookClub, true, false), "<:mmx:1279517275749089290> Cancelled.");
    assert_eq!(
        no_eligible_event(HostedEvent::BookClub, true),
        format!("{MMINFO} No eligible community book club event found. Please try again on the day of the event.")
    );
    assert_eq!(no_eligible_event(HostedEvent::CommunitySit, false), format!("{MMINFO} No active community sit event found."));
}

#[test]
fn starting_an_event_needs_the_host_in_its_channel() {
    let note = format!(
        "{MMINFO} Please join <#3> before starting the event. Events may end automatically if no one is present in the VC."
    );
    assert_eq!(not_present(Some(3), true, None), Some(note.clone()));
    assert_eq!(not_present(Some(3), true, Some(Some(4))), Some(note));
    assert_eq!(not_present(Some(3), true, Some(Some(3))), None);
    assert_eq!(not_present(Some(3), true, Some(None)), None);
    assert_eq!(not_present(Some(3), false, None), None);
    assert_eq!(not_present(None, true, None), None);
}

#[test]
fn course_completion_checks_in_order() {
    assert_eq!(completion_status(false, false, false, false, false), Completion::CourseNotFound);
    assert_eq!(completion_status(true, false, true, true, false), Completion::GuildUnavailable);
    assert_eq!(completion_status(true, true, false, true, false), Completion::NotAMember);
    assert_eq!(completion_status(true, true, true, false, true), Completion::NotEnrolled);
    assert_eq!(completion_status(true, true, true, true, true), Completion::AlreadyGraduated);
    assert_eq!(completion_status(true, true, true, true, false), Completion::Eligible);
    assert_eq!(
        completion_message(Completion::NotEnrolled, "Basics"),
        format!("{MMINFO} You are not enrolled in the course: **Basics**.")
    );
    assert_eq!(graduation_message("Basics", true), ":tada: Congrats! You are now a graduate of the course: **Basics**!");
    assert_eq!(course_not_found_message(Some("Basics")), format!("{MMINFO} Course does not exist. Did you mean `Basics`?"));
    assert_eq!(course_not_found_message(None), format!("{MMINFO} Course does not exist."));
}

#[test]
fn course_roles_are_checked() {
    let p = RoleInfo { id: 1, guild_id: 9, managed: false, administrator: false };
    let g = RoleInfo { id: 2, guild_id: 9, managed: false, administrator: false };
    assert_eq!(check_eligibility(9, &p, &g), Ok(true));
    assert_eq!(check_eligibility(8, &p, &g), Err(CourseRoleError::ParticipantOtherGuild));
    let admin = RoleInfo { administrator: true, ..g };
    assert_eq!(check_eligibility(9, &p, &admin), Err(CourseRoleError::GraduateAdministrator));
    assert_eq!(check_eligibility(9, &p, &p), Err(CourseRoleError::SameRoles));
    assert_eq!(CourseRoleError::GraduateManaged.message(), "Graduate role cannot be a bot role.");
}

#[test]
fn only_own_entries_are_removed() {
    let e = Meditation::new(1, 7, 10, 0, Instant { secs: 0, nanos: 0 });
    assert_eq!(check_removal(Some(&e), 7), Ok(()));
    assert_eq!(check_removal(Some(&e), 8), Err(RemovalProblem::NotOwner));
    assert_eq!(check_removal(None, 7), Err(RemovalProblem::NotFound));
    assert_eq!(
        entry_not_found_message("</recent:1>"),
        format!("{MMINFO} No entry found with that ID.\n-# Use </recent:1> to view a list of your entries and their IDs.")
    );
}

#[test]
fn missing_terms_suggest_similar_ones() {
    let none: Vec<Term> = Vec::new();
    assert_eq!(missing_term_notice(&none), format!("{MMINFO} Term does not exist."));
    assert_eq!(
        missing_term_notice(&vec![term("Metta")]),
        format!("{MMINFO} Term does not exist. Did you mean `Metta`?")
    );
    assert_eq!(
        missing_term_notice(&vec![term("Metta"), term("Mudita")]),
        format!("{MMINFO} Term does not exist. Did you mean one of these?\n`Metta`\n`Mudita`")
    );
}

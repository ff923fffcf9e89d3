use bloom_bot::challenge::{
    challenge_role_error, challenge_stats_footer, challenge_stats_title, challenge_streak_field, join_challenge,
    join_welcome, leave_challenge, leave_farewell, not_in_challenge, shows_challenge_streaks, RoleChange,
};
use bloom_bot::common::{has_role, is_supporter, role_check};
use bloom_bot::config::Role;
use bloom_bot::extract::{extract_content, no_report_found, report_button_ids, report_press, ReportPress};
use bloom_bot::moving::{
    from_line, make_thread_name, move_step, move_timed_out, moved_summary, order_moved, plan_move,
    single_move_summary, undeleted_notice, MovePlan, MoveStep, MoveTarget,
};
use bloom_bot::quote::{quote_description, quote_fallback_notes, quote_reply, searches_keyword, Quote, QuoteReply};
use bloom_bot::reports::{
    author_footer, discussion_thread_name, report_content, report_sent, report_texts, suggestion_posted,
};
use bloom_bot::rows::{
    bookmark_key, bookmark_refusal, course_farewell, course_role_failure, course_welcome, edited_course_roles,
    enrollment_course, enrollment_log, key_retrieved, no_course_changes, plan_course_join, plan_course_leave, Course,
    Enrollment, MINDFULNESS_WELCOME,
};
use bloom_bot::common::Visibility;
use bloom_bot::erase::{erase_list_title, erase_list_visibility, notification_thread_channel};
use bloom_bot::time::ChallengeTimeframe;
use bloom_bot::tracking_profile::{Privacy, Status, TrackingProfile};
use bloom_bot::utilities::{hello, pong_message, uptime_message};

const MMX: &str = "<:mmx:1279517275749089290>";
const MMINFO: &str = "<:mminfo:1279517292455264359>";
const MMCHECK: &str = "<:mmcheck:1279517233877483601>";

#[test]
fn thread_names_are_cut_at_a_word() {
    assert_eq!(make_thread_name("Short message"), "Short message");
    assert_eq!(
        make_thread_name("This is a rather long message that keeps on going and going"),
        "This is a rather long message that..."
    );
    assert_eq!(make_thread_name(&"a".repeat(50)), format!("{}...", "a".repeat(40)));
    assert_eq!(make_thread_name(&"b".repeat(40)), "b".repeat(40));
}

#[test]
fn move_requests_are_checked() {
    assert!(matches!(plan_move(MoveTarget::ExistingChannel, None, Some(3), "x"),
        MovePlan::Refused(t) if t == format!("{MMX} No existing channel or thread was selected.")));
    assert!(matches!(plan_move(MoveTarget::ExistingChannel, Some(77), None, "x"), MovePlan::ToChannel(77)));
    assert!(matches!(plan_move(MoveTarget::NewPublicThread, Some(77), None, "x"),
        MovePlan::Refused(t) if t == format!("{MMX} Must specify additional messages to create a thread.")));
    assert!(matches!(plan_move(MoveTarget::NewPublicThread, None, Some(2), "Topic"),
        MovePlan::NewThread(t) if t == "Topic"));
}

#[test]
fn moved_messages_go_oldest_first() {
    assert_eq!(order_moved(0u64, vec![3, 2, 1], 3, true), vec![0, 1, 2, 3]);
    assert_eq!(order_moved(0u64, vec![3, 2, 1], 3, false), vec![1, 2, 3]);
    assert_eq!(order_moved(0u64, vec![], 0, true), vec![0]);
}

#[test]
fn each_moved_message_is_forwarded_or_skipped() {
    assert_eq!(from_line(42), "From <@42>:");
    let (n, step) = move_step(0, true, 42, "https://l");
    assert_eq!(n, 1);
    assert!(matches!(step, MoveStep::Forward(t) if t == "From <@42>:"));
    let (n, step) = move_step(1, false, 42, "https://l");
    assert_eq!(n, 1);
    assert!(matches!(step, MoveStep::Skip(t) if t == format!("{MMINFO} Unable to move message. Skipping: https://l")));
    assert_eq!(
        undeleted_notice(true, "L"),
        format!("{MMINFO} Original message could not be deleted. Please delete manually: L")
    );
    assert_eq!(undeleted_notice(false, "L"), format!("{MMINFO} Message could not be deleted. Please delete manually: L"));
}

#[test]
fn move_summaries_count_messages() {
    assert_eq!(moved_summary(1, 9), format!("{MMCHECK} 1 message successfully moved to <#9>."));
    assert_eq!(moved_summary(0, 9), format!("{MMCHECK} 0 messages successfully moved to <#9>."));
    assert_eq!(moved_summary(4, 9), format!("{MMCHECK} 4 messages successfully moved to <#9>."));
    assert_eq!(single_move_summary(12), format!("{MMCHECK} Message successfully moved to <#12>."));
    assert_eq!(move_timed_out(), format!("{MMINFO} Timed out waiting for response."));
}

#[test]
fn joining_and_leaving_challenges() {
    assert!(matches!(join_challenge(None, true),
        RoleChange::Unchanged(t) if t == "You've already joined the monthly challenge. Awesome!"));
    assert!(matches!(join_challenge(Some(ChallengeTimeframe::YearRound), true),
        RoleChange::Unchanged(t) if t == "You've already joined the 365-day challenge. Awesome!"));
    assert!(matches!(join_challenge(None, false), RoleChange::Change(796821826369617970)));
    assert!(matches!(join_challenge(Some(ChallengeTimeframe::YearRound), false), RoleChange::Change(516750476268666880)));
    assert!(matches!(leave_challenge(None, false),
        RoleChange::Unchanged(t) if t == "You're not currently participating in the monthly challenge. If you want to join, use `/challenge join`."));
    assert!(matches!(leave_challenge(Some(ChallengeTimeframe::YearRound), true), RoleChange::Change(516750476268666880)));
    assert_eq!(
        challenge_role_error(),
        format!("{MMINFO} An error occurred while updating your roles. Please try again, or contact server staff for assistance.")
    );
}

#[test]
fn challenge_messages() {
    assert_eq!(
        join_welcome(None, 7, "March"),
        "Challenge accepted! You're awesome, <@7>! Now commit to practicing consistently throughout the month of March and `/add` your times in this channel. You can use <#534702592245235733> and <#465656096929873942> for extra accountability. Let's do this!"
    );
    assert_eq!(
        join_welcome(Some(ChallengeTimeframe::YearRound), 7, "March"),
        "Awesome, <@7>! You have successfully joined the 365-day challenge <:pepeglow:1279541855150673991>"
    );
    assert_eq!(
        leave_farewell(Some(ChallengeTimeframe::YearRound), 8),
        "You have successfully opted out of the 365-day challenge, <@8>."
    );
    assert_eq!(
        not_in_challenge(ChallengeTimeframe::Monthly),
        format!("{MMINFO} You're not currently participating in the monthly challenge. If you want to join, use </challenge join:1187466829547978904>.")
    );
    assert_eq!(challenge_stats_title(ChallengeTimeframe::YearRound), "365-Day Meditation Challenge Stats");
    assert_eq!(challenge_stats_footer(ChallengeTimeframe::Monthly, "May 2024"), "Stats for May 2024 Monthly Challenge");
    assert_eq!(challenge_stats_footer(ChallengeTimeframe::YearRound, "2024"), "Stats for 365-Day Challenge (2024)");
    assert_eq!(challenge_streak_field(3, 10), "```yml\nCurrent Streak: 3\nLongest Streak: 10```");
}

#[test]
fn challenge_streaks_follow_privacy() {
    let mut p = TrackingProfile::new(1, 2);
    assert!(shows_challenge_streaks(&p));
    p.streak.privacy = Privacy::Private;
    assert!(!shows_challenge_streaks(&p));
    p.stats.privacy = Privacy::Private;
    assert!(shows_challenge_streaks(&p));
    p.streak.status = Status::Disabled;
    assert!(!shows_challenge_streaks(&p));
}

#[test]
fn extracted_text_prefers_the_embed() {
    assert_eq!(extract_content(None, "hello"), ("hello".to_string(), String::new()));
    assert_eq!(extract_content(Some("desc".to_string()), "hello"), ("desc".to_string(), String::new()));
    assert_eq!(extract_content(Some(String::new()), "hello"), ("hello".to_string(), String::new()));
    assert_eq!(extract_content(None, ""), (format!("{MMINFO} No message body."), String::new()));
}

#[test]
fn long_text_is_split_where_the_2000th_byte_ends() {
    let body = "a".repeat(2500);
    assert_eq!(extract_content(None, &body), (format!("{}...", "a".repeat(1997)), "a".repeat(500)));
    let body = "a".repeat(4500);
    assert_eq!(extract_content(None, &body), (format!("{}...", "a".repeat(1997)), format!("{}...", "a".repeat(1997))));
    let body = format!("a{}", "é".repeat(2100));
    let expected: String = body.chars().take(1997).collect();
    assert_eq!(extract_content(None, &body), (format!("{expected}..."), String::new()));
    let exactly = "z".repeat(2000);
    assert_eq!(extract_content(None, &exactly), (exactly.clone(), String::new()));
}

#[test]
fn report_buttons() {
    assert_eq!(report_button_ids(10, 5), ("15next".to_string(), "15stop".to_string()));
    assert_eq!(report_press("15next", "15next", "15stop"), ReportPress::Next);
    assert_eq!(report_press("15stop", "15next", "15stop"), ReportPress::Stop);
    assert_eq!(report_press("99next", "15next", "15stop"), ReportPress::Unrelated);
    assert_eq!(no_report_found(), format!("{MMINFO} No message found."));
}

#[test]
fn suggestions_and_reports() {
    assert_eq!(discussion_thread_name("More cushions"), "Discussion: More cushions");
    assert_eq!(discussion_thread_name(&"x".repeat(90)), format!("Discussion: {}...", "x".repeat(85)));
    assert_eq!(author_footer(7), "Author ID: 7");
    assert_eq!(suggestion_posted(5), "Your suggestion has been added to <#5>.");
    assert_eq!(report_content("text", Some("http://u")), "text");
    assert_eq!(report_content("", Some("http://u")), "**Attachment**\nhttp://u");
    assert_eq!(report_content("", None), "");
    let r = report_texts("L", 1, "general", "bob", 2);
    assert_eq!(r.heading, "<@&788760128010059786> Message Reported");
    assert_eq!(r.link, "[Go to message](L)");
    assert_eq!(r.footer, "Author ID: 1\nReported via context menu in #general by bob (2)");
    assert_eq!(report_sent(), "Your report has been sent to the moderation team.");
}

#[test]
fn quotes_shown_on_their_own() {
    let q = Quote { id: "ID".to_string(), quote: "Be here now.".to_string(), author: None, guild_id: 1 };
    assert_eq!(quote_description(&q), "Be here now.\n\n\\― Anonymous");
    let q2 = Quote { author: Some("Ram Dass".to_string()), ..q };
    assert!(matches!(quote_reply(Some(&q2)), QuoteReply::Show(t) if t == "Be here now.\n\n\\― Ram Dass"));
    assert!(matches!(quote_reply(None), QuoteReply::NoneFound(t) if t == "No quotes found."));
}

#[test]
fn quote_keywords_are_for_supporters() {
    assert!(searches_keyword(true, true));
    assert!(!searches_keyword(true, false));
    assert!(!searches_keyword(false, true));
    let donors = format!("{MMINFO} The keyword option is only available to [subscription-based donators](<https://discord.com/channels/244917432383176705/1030424719138246667/1031137243345211413>).");
    assert_eq!(quote_fallback_notes(true, true), vec!["No quotes found. Fetching random quote.".to_string(), donors.clone()]);
    assert_eq!(quote_fallback_notes(true, false), vec![donors]);
    assert!(quote_fallback_notes(false, true).is_empty());
}

#[test]
fn roles_and_supporters() {
    let roles = vec![1u64, 1083219974509826048];
    assert!(has_role(Some(&roles), Role(1)));
    assert!(!has_role(Some(&roles), Role(2)));
    assert!(!has_role(None, Role(1)));
    assert!(is_supporter(Some(&roles)));
    assert!(is_supporter(Some(&vec![788760128010059786])));
    assert!(!is_supporter(Some(&vec![1, 2])));
    assert!(!is_supporter(None));
    assert_eq!(role_check(Some(&roles), Role(1)), Ok(()));
    assert_eq!(role_check(None, Role(5)), Err(format!("{MMINFO} This command requires the <@&5> role.")));
}

#[test]
fn bookmarks_are_limited_for_members_who_do_not_support() {
    assert!(bookmark_refusal(false, 19).is_none());
    let refusal = bookmark_refusal(false, 20).unwrap();
    assert!(refusal.starts_with(&format!("{MMINFO} Sorry, you've reached the bookmark limit.")));
    assert!(bookmark_refusal(true, 500).is_none());
    assert_eq!(bookmark_key("01hq3abc-z"), "01HQ3ABC-Z");
}

#[test]
fn course_edits_without_changes_are_noticed() {
    let c = Course::new("Basics".to_string(), 10, 20, 1);
    assert!(no_course_changes(None, None, &c));
    assert!(no_course_changes(Some(10), Some(20), &c));
    assert!(!no_course_changes(Some(11), None, &c));
    assert!(!no_course_changes(None, Some(21), &c));
    assert_eq!(edited_course_roles(None, Some(21), &c), (10, 21));
    assert_eq!(edited_course_roles(Some(11), None, &c), (11, 20));
}

#[test]
fn course_enrollment() {
    assert_eq!(enrollment_course(None), "Mindfulness Course");
    assert_eq!(enrollment_course(Some("Metta".to_string())), "Metta");
    let c = Course::new("Mindfulness Course".to_string(), 10, 20, 1);
    assert!(matches!(plan_course_join("Mindfulness Course", &c, &vec![10]),
        Enrollment::Refused(t) if t == format!("{MMINFO} You are already enrolled in the course: **Mindfulness Course**.")));
    assert!(matches!(plan_course_join("Mindfulness Course", &c, &vec![5, 20]),
        Enrollment::Refused(t) if t == format!("{MMINFO} You have already completed the course: **Mindfulness Course**.")));
    assert!(matches!(plan_course_join("Mindfulness Course", &c, &vec![5]), Enrollment::ChangeRole(10)));
    assert!(matches!(plan_course_leave("X", &c, &vec![5]),
        Enrollment::Refused(t) if t == format!("{MMINFO} You are not currently enrolled in the course: **X**.")));
    assert!(matches!(plan_course_leave("X", &c, &vec![10]), Enrollment::ChangeRole(10)));
    assert_eq!(
        course_role_failure(false),
        format!("{MMINFO} Failed to remove the course role. Please try again or contact staff for assistance.")
    );
    let (title, text, image) = course_welcome("Mindfulness Course");
    assert_eq!(title.as_deref(), Some("Thank you for joining the Mindfulness Course!"));
    assert_eq!(text, MINDFULNESS_WELCOME);
    assert!(text.starts_with("You have two options for accessing the course materials.\n\n- If you prefer"));
    assert!(image.is_some());
    assert_eq!(course_welcome("Other"), (None, "How did you get here?".to_string(), None));
    assert!(course_farewell("Metta").starts_with("You have successfully opted out of the **Metta** course-specific channels.\n\nIf you also"));
    assert_eq!(
        enrollment_log(3, "Metta", true),
        ("New Course Enrollment".to_string(), "<@3> has opted into the course: **Metta**".to_string())
    );
}

#[test]
fn keys_and_erases() {
    let (reply, log, footer) = key_retrieved("AAAA-BBBB", "bob", 4);
    assert_eq!(reply, format!("{MMCHECK} Key retrieved and marked used: `AAAA-BBBB`"));
    assert_eq!(log, "**Key**: `AAAA-BBBB`");
    assert_eq!(footer, "Retrieved by bob (4)");
    assert_eq!(erase_list_visibility(441207765357035541), Visibility::Public);
    assert_eq!(erase_list_visibility(1), Visibility::Ephemeral);
    assert_eq!(notification_thread_channel(7, true), 7);
    assert_eq!(notification_thread_channel(7, false), 501464482996944909);
    assert_eq!(erase_list_title("bob"), "Erases for bob");
}

#[test]
fn utility_replies() {
    assert_eq!(uptime_message(0), "My current uptime is 0d 0h 0m 0s.");
    assert_eq!(uptime_message(90061), "My current uptime is 1d 1h 1m 1s.");
    assert_eq!(uptime_message(86399), "My current uptime is 0d 23h 59m 59s.");
    assert_eq!(pong_message(42), ":ping_pong: Pong! Latency is 42ms.");
    assert_eq!(hello(), "Hello, friend!");
}

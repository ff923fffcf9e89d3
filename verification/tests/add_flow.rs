use bloom_bot::time::{MinusOffsetChoice, PlusOffsetChoice};
use bloom_bot::tracking::{add_step, AddAction, AddEvent, AddRequest, AddState};

fn request(minutes: i32, seconds: i32, privacy: bool) -> AddRequest<String> {
    AddRequest {
        minutes,
        seconds,
        minus_offset: None,
        plus_offset: None,
        profile_offset: 0,
        privacy,
        streaks_enabled: true,
        interaction_id: 42,
        author_id: 7,
        author_name: "ann".to_string(),
    }
}

fn stored(minutes: i32, privacy: bool) -> AddState<String> {
    let (s, _) = add_step(AddState::Start(request(minutes, 0, privacy)), AddEvent::Begin);
    s
}

fn waiting(minutes: i32, seconds: i32, privacy: bool) -> AddState<String> {
    let (s, _) = add_step(AddState::Start(request(minutes, seconds, privacy)), AddEvent::Begin);
    let (s, a) = add_step(s, AddEvent::Stored { user_sum: 1000, response: "public text".to_string() });
    assert!(matches!(a, AddAction::AskConfirmation { .. }));
    s
}

#[test]
fn add_begins_by_storing_with_the_profile_offset() {
    let mut r = request(20, 5, false);
    r.profile_offset = -300;
    let (s, a) = add_step(AddState::Start(r), AddEvent::Begin);
    assert_eq!(a, AddAction::Store { minutes: 20, seconds: 5, offset: -300 });
    assert!(matches!(s, AddState::Storing(_)));
}

#[test]
fn add_chosen_offset_overrides_the_profile() {
    let mut r = request(20, 0, false);
    r.profile_offset = -300;
    r.plus_offset = Some(PlusOffsetChoice::UTCPlus5_45);
    let (_, a) = add_step(AddState::Start(r), AddEvent::Begin);
    assert_eq!(a, AddAction::Store { minutes: 20, seconds: 0, offset: 345 });
}

#[test]
fn add_with_both_offsets_replies_with_the_error_and_stores_nothing() {
    let mut r = request(20, 0, false);
    r.minus_offset = Some(MinusOffsetChoice::UTCMinus5);
    r.plus_offset = Some(PlusOffsetChoice::UTCPlus1);
    let (s, a) = add_step(AddState::Start(r), AddEvent::Begin);
    assert_eq!(
        a,
        AddAction::Reply {
            text: "A problem occurred while attempting to determine the UTC offset based on your choice: Cannot have both minus and plus offsets".to_string(),
            ephemeral: true,
        }
    );
    assert_eq!(s, AddState::Done);
    let (s, a) = add_step(s, AddEvent::Stored { user_sum: 5, response: "x".to_string() });
    assert_eq!(s, AddState::Done);
    assert_eq!(a, AddAction::Ignore);
}

#[test]
fn small_public_add_commits_and_announces_at_once() {
    let (s, a) = add_step(stored(30, false), AddEvent::Stored { user_sum: 130, response: "public text".to_string() });
    assert_eq!(s, AddState::Done);
    assert_eq!(
        a,
        AddAction::CommitAndAnnounce {
            reply: "public text".to_string(),
            ephemeral: false,
            channel_post: None,
            streak_roles: true,
        }
    );
}

#[test]
fn small_private_add_answers_privately_and_posts_publicly() {
    let (_, a) = add_step(stored(300, true), AddEvent::Stored { user_sum: 130, response: "public text".to_string() });
    assert_eq!(
        a,
        AddAction::CommitAndAnnounce {
            reply: "Added **300 minutes** to your meditation time! Your total meditation time is now 130 minutes :tada:".to_string(),
            ephemeral: true,
            channel_post: Some("public text".to_string()),
            streak_roles: true,
        }
    );
}

#[test]
fn large_add_asks_for_confirmation() {
    let (s, a) = add_step(stored(301, false), AddEvent::Stored { user_sum: 1000, response: "public text".to_string() });
    assert!(matches!(s, AddState::Confirming { .. }));
    assert_eq!(
        a,
        AddAction::AskConfirmation {
            prompt: "Are you sure you want to add **301** minutes to your meditation time?".to_string(),
            ephemeral: false,
            confirm_id: "42confirm".to_string(),
            cancel_id: "42cancel".to_string(),
        }
    );
}

#[test]
fn large_add_unrelated_press_keeps_waiting() {
    let s = waiting(400, 0, false);
    let (s, a) = add_step(s, AddEvent::Pressed("43confirm".to_string()));
    assert_eq!(a, AddAction::KeepWaiting);
    assert!(matches!(s, AddState::Confirming { .. }));
}

#[test]
fn large_add_confirmed_commits_then_logs_without_follow_up() {
    let s = waiting(400, 30, true);
    let (s, a) = add_step(s, AddEvent::Pressed("42confirm".to_string()));
    assert_eq!(
        a,
        AddAction::UpdatePrompt {
            text: "Added **400 minutes** to your meditation time! Your total meditation time is now 1000 minutes :tada:".to_string(),
            ephemeral: true,
        }
    );
    let (s, a) = add_step(s, AddEvent::PromptUpdated(true));
    assert_eq!(a, AddAction::Commit);
    let (s, a) = add_step(s, AddEvent::Committed(true));
    assert_eq!(s, AddState::Done);
    assert_eq!(
        a,
        AddAction::AnnounceLargeAdd {
            channel_post: Some("public text".to_string()),
            log_title: "Large Meditation Entry Added".to_string(),
            log_description: "**User**: <@7>\n**Time**: 400 minutes 30 second(s)".to_string(),
            log_footer: "Added by ann (7)".to_string(),
        }
    );
}

#[test]
fn large_public_add_confirmed_shows_the_public_text() {
    let s = waiting(400, 0, false);
    let (_, a) = add_step(s, AddEvent::Pressed("42confirm".to_string()));
    assert_eq!(a, AddAction::UpdatePrompt { text: "public text".to_string(), ephemeral: false });
}

#[test]
fn large_add_cancelled_drops_the_entry() {
    let s = waiting(400, 0, false);
    let (s, a) = add_step(s, AddEvent::Pressed("42cancel".to_string()));
    assert_eq!(a, AddAction::UpdatePrompt { text: "Cancelled.".to_string(), ephemeral: false });
    let (s, a) = add_step(s, AddEvent::PromptUpdated(true));
    assert_eq!(a, AddAction::Discard);
    assert_eq!(s, AddState::Done);
}

#[test]
fn large_add_failed_prompt_update_warns_and_fails() {
    let s = waiting(400, 0, true);
    let (s, _) = add_step(s, AddEvent::Pressed("42confirm".to_string()));
    let (s, a) = add_step(s, AddEvent::PromptUpdated(false));
    assert_eq!(s, AddState::Failed);
    assert_eq!(
        a,
        AddAction::EditPromptAndFail {
            text: "<:mminfo:1279517292455264359> An error may have occurred. If your command failed, please contact staff for assistance.".to_string(),
            ephemeral: true,
        }
    );
}

#[test]
fn large_add_failed_commit_warns_and_fails() {
    let s = waiting(400, 0, false);
    let (s, _) = add_step(s, AddEvent::Pressed("42confirm".to_string()));
    let (s, _) = add_step(s, AddEvent::PromptUpdated(true));
    let (s, a) = add_step(s, AddEvent::Committed(false));
    assert_eq!(s, AddState::Failed);
    assert_eq!(
        a,
        AddAction::EditPromptAndFail {
            text: "<:mminfo:1279517292455264359> A fatal error occurred while trying to save your changes. Please contact staff for assistance.".to_string(),
            ephemeral: false,
        }
    );
}

#[test]
fn large_add_timeout_is_added_as_an_ordinary_entry() {
    let s = waiting(400, 0, false);
    let (s, a) = add_step(s, AddEvent::TimedOut);
    assert_eq!(s, AddState::Done);
    assert_eq!(
        a,
        AddAction::CommitAndAnnounce {
            reply: "public text".to_string(),
            ephemeral: false,
            channel_post: None,
            streak_roles: true,
        }
    );
}

use bloom_bot::tracking::{
    add_confirmation, guild_hours, guild_hours_message, minimize_markdown, needs_confirmation,
    plan_streak_role_update, plan_time_role_update,
};
use bloom_bot::roles::{StreakRoles, TimeSumRoles};
use bloom_bot::tracking::{is_private, resolve_privacy, Privacy};
use bloom_bot::tracking_profile::{Privacy as ProfilePrivacy, TrackingProfile};

#[test]
fn test_minimize_markdown() {
    assert_eq!(
        minimize_markdown("A quote with *italics markdown* inside."),
        "A quote with italics markdown inside\\."
    );
    assert_eq!(
        minimize_markdown("A quote with __underline markdown__ inside."),
        "A quote with __underline markdown__ inside\\."
    );
    assert_eq!(
        minimize_markdown("A quote with ~~strikethrough markdown~~ inside."),
        "A quote with ~~strikethrough markdown~~ inside\\."
    );
    assert_eq!(
        minimize_markdown("A quote with a hyphen (-) and an em dash (—) inside."),
        "A quote with a hyphen \\(\\-\\) and an em dash \\(—\\) inside\\."
    );
    assert_eq!(
        minimize_markdown("A quote with single quotes ('') and double quotes (\"\") inside."),
        "A quote with single quotes \\(\\'\\'\\) and double quotes \\(\\\"\\\"\\) inside\\."
    );
}

#[test]
fn plain_text_is_not_changed() {
    assert_eq!(minimize_markdown("Breathe in and out"), "Breathe in and out");
    assert_eq!(minimize_markdown(""), "");
}

#[test]
fn guild_hours_every_tenth_session() {
    assert_eq!(guild_hours(20, 125), Some(2));
    assert_eq!(guild_hours(0, 59), Some(0));
    assert_eq!(guild_hours(21, 125), None);
    assert_eq!(
        guild_hours_message(12),
        "Awesome sauce! This server has collectively generated 12 hours of realmbreaking meditation!"
    );
}

#[test]
fn confirmation_texts() {
    assert_eq!(
        add_confirmation(42, 15, 100, true, true, None),
        "Someone just added **15 minutes** to their meditation time! :tada:"
    );
    assert_eq!(
        add_confirmation(42, 15, 100, false, true, Some("Be *here* now.")),
        "Added **15 minutes** to your meditation time! Your total meditation time is now 100 minutes :tada:\n*Be here now\\.*"
    );
    assert_eq!(
        add_confirmation(42, 15, 100, false, false, None),
        "<@42> added **15 minutes** to their meditation time! Their total meditation time is now 100 minutes :tada:"
    );
    assert!(needs_confirmation(301));
    assert!(!needs_confirmation(300));
}

#[test]
fn time_role_update_replaces_old_roles() {
    let one = TimeSumRoles::One.to_role_id();
    let two = TimeSumRoles::Two.to_role_id();
    let plan = plan_time_role_update(&vec![7, one], 120).unwrap();
    assert_eq!(plan.add, two);
    assert_eq!(plan.remove, vec![one]);
    assert!(plan_time_role_update(&vec![two], 120).is_none());
    assert!(plan_time_role_update(&vec![one], 10).is_none());
}

#[test]
fn streak_role_update_replaces_old_roles() {
    let egg = StreakRoles::Egg.to_role_id();
    let chick = StreakRoles::HatchingChick.to_role_id();
    let plan = plan_streak_role_update(&vec![egg, 5], 14).unwrap();
    assert_eq!(plan.add, chick);
    assert_eq!(plan.remove, vec![egg]);
    assert!(plan_streak_role_update(&vec![], 3).is_none());
}

#[test]
fn tracking_test_privacy_macro() {
    let profile = TrackingProfile::default().streak_privacy(ProfilePrivacy::Private);
    let streaks_private = profile.streak.privacy.is_private();
    assert!(is_private(Privacy::Private));
    assert!(!(resolve_privacy(Some(Privacy::Public), streaks_private)));
    assert!(resolve_privacy(None, streaks_private));
}

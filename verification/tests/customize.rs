use bloom_bot::tracking::restored_streak_role;
use bloom_bot::tracking_profile::{
    plan_offset_change, plan_stats_change, plan_streak_change, plan_tracking_change, Privacy, SettingsChange, Status,
    TrackingProfile,
};

#[test]
fn first_setting_creates_a_profile() {
    match plan_tracking_change(None, 1, 2, true) {
        SettingsChange::Store { profile, is_new } => {
            assert!(is_new);
            assert_eq!(profile, TrackingProfile::new(1, 2).tracking_privacy(Privacy::Private));
        },
        SettingsChange::Unchanged => panic!("a new profile is stored"),
    }
}

#[test]
fn settings_already_in_place_change_nothing() {
    let p = TrackingProfile::new(1, 2).tracking_privacy(Privacy::Private);
    assert!(matches!(plan_tracking_change(Some(p), 1, 2, true), SettingsChange::Unchanged));
    assert!(matches!(plan_stats_change(Some(p), 1, 2, Privacy::Public), SettingsChange::Unchanged));
    assert!(matches!(plan_offset_change(Some(p), 1, 2, 0), SettingsChange::Unchanged));
    match plan_stats_change(Some(p), 1, 2, Privacy::Private) {
        SettingsChange::Store { profile, is_new } => {
            assert!(!is_new);
            assert_eq!(profile, p.stats_privacy(Privacy::Private));
        },
        SettingsChange::Unchanged => panic!("the stats privacy changes"),
    }
    match plan_offset_change(Some(p), 1, 2, -300) {
        SettingsChange::Store { profile, .. } => assert_eq!(profile.utc_offset, -300),
        SettingsChange::Unchanged => panic!("the offset changes"),
    }
}

#[test]
fn turning_streaks_off_and_on_moves_roles() {
    let p = TrackingProfile::new(1, 2);
    let off = plan_streak_change(Some(p), 1, 2, None, Some(Status::Disabled));
    assert!(off.remove_streak_roles && !off.restore_streak_role);
    let disabled = p.streak_status(Status::Disabled);
    let on = plan_streak_change(Some(disabled), 1, 2, None, Some(Status::Enabled));
    assert!(on.restore_streak_role && !on.remove_streak_roles);
    let same = plan_streak_change(Some(p), 1, 2, Some(Privacy::Public), None);
    assert!(matches!(same.change, SettingsChange::Unchanged));
    let fresh = plan_streak_change(None, 1, 2, Some(Privacy::Private), None);
    assert!(!fresh.remove_streak_roles);
    assert!(matches!(fresh.change, SettingsChange::Store { is_new: true, .. }));
}

#[test]
fn restored_streak_role_is_the_earned_one() {
    assert_eq!(restored_streak_role(&vec![], 0), None);
    let r = restored_streak_role(&vec![], 7);
    assert!(r.is_some());
    assert_eq!(restored_streak_role(&vec![r.unwrap()], 7), None);
}

#[test]
fn privacy_names() {
    assert_eq!(Privacy::Private.name(), "private");
    assert_eq!(Privacy::Public.name(), "public");
}

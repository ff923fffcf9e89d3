use bloom_bot::tracking_profile::{Privacy, Stats, Status, Streak, TrackingProfile};

#[test]
fn test_builder() {
    let profile1 = TrackingProfile {
        utc_offset: 180,
        streak: Streak {
            status: Status::Enabled,
            privacy: Privacy::Private,
        },
        stats: Stats {
            privacy: Privacy::Private,
        },
        ..Default::default()
    };
    let profile2 = TrackingProfile::default()
        .utc_offset(180)
        .streak_privacy(Privacy::Private)
        .stats_privacy(Privacy::Private);
    assert_eq!(profile1.utc_offset, profile2.utc_offset);
    assert_eq!(profile1.streak.privacy, profile2.streak.privacy);
    assert_eq!(profile1.stats.privacy, profile2.stats.privacy);

    assert_eq!(TrackingProfile::default().utc_offset, 0);
    assert_eq!(TrackingProfile::default().utc_offset(5).utc_offset, 0);
    assert_eq!(TrackingProfile::default().utc_offset(540).utc_offset, 540);
}

#[test]
fn test_id_methods() {
    let guild_id: u64 = 1300863845429936139;
    let profile = TrackingProfile::default().guild_id(guild_id);
    assert_eq!(profile.guild_id, 1300863845429936139);

    let int_user_id = 1300863845429936139;
    let str_guild_id = 1300863845429936139;

    let profile = TrackingProfile::default()
        .user_id(int_user_id)
        .guild_id(str_guild_id);
    assert_eq!(profile.user_id, 1300863845429936139);
    assert_eq!(profile.guild_id, 1300863845429936139);

    let profile = TrackingProfile::new(str_guild_id, int_user_id);
    assert_eq!(profile.user_id, 1300863845429936139);
    assert_eq!(profile.guild_id, 1300863845429936139);
}

#[test]
fn tracking_profile_test_privacy_macro() {
    let profile = TrackingProfile::default().streak_privacy(Privacy::Private);
    assert!(Privacy::Private.is_private());
    assert!(!(Privacy::resolve(Some(Privacy::Public), profile.streak.privacy)));
    assert!(Privacy::resolve(None, profile.streak.privacy));
}

#[test]
fn builders_change_one_setting_each() {
    let p = TrackingProfile::new(1, 2)
        .tracking_privacy(Privacy::Private)
        .streak_status(Status::Disabled);
    assert_eq!(p.tracking.privacy, Privacy::Private);
    assert_eq!(p.streak.status, Status::Disabled);
    assert_eq!(p.streak.privacy, Privacy::Public);
    assert_eq!(p.stats.privacy, Privacy::Public);
    assert_eq!((p.guild_id, p.user_id), (1, 2));
    assert_eq!(TrackingProfile::default().utc_offset(-570).utc_offset, -570);
}

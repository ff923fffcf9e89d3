use bloom_bot::config::{channels, commands, emoji, emotes, entries_per_page, roles, Channel, Role};
use bloom_bot::roles::{StreakRoles, TimeSumRoles};

#[test]
fn time_roles_follow_the_thresholds() {
    assert_eq!(TimeSumRoles::from_sum(49), None);
    assert_eq!(TimeSumRoles::from_sum(50), Some(TimeSumRoles::One));
    assert_eq!(TimeSumRoles::from_sum(149), Some(TimeSumRoles::Two));
    assert_eq!(TimeSumRoles::from_sum(150), Some(TimeSumRoles::Three));
    assert_eq!(TimeSumRoles::from_sum(199_999), Some(TimeSumRoles::Fourteen));
    assert_eq!(TimeSumRoles::from_sum(200_000), Some(TimeSumRoles::Fifteen));
    assert_eq!(TimeSumRoles::from_sum(i64::MIN), None);
    assert_eq!(TimeSumRoles::One.to_role_icon(), "⭐");
    assert_eq!(TimeSumRoles::Fifteen.to_role_icon(), "🔥🔥🔥");
}

#[test]
fn streak_roles_follow_the_thresholds() {
    assert_eq!(StreakRoles::from_streak(6), None);
    assert_eq!(StreakRoles::from_streak(7), Some(StreakRoles::Egg));
    assert_eq!(StreakRoles::from_streak(364), Some(StreakRoles::Eagle));
    assert_eq!(StreakRoles::from_streak(365), Some(StreakRoles::Dragon));
    assert_eq!(StreakRoles::from_streak(u64::MAX), Some(StreakRoles::SpaceInvader));
    assert_eq!(StreakRoles::Dove.to_role_icon(), "🕊️");
}

#[test]
fn role_ids_map_back_to_roles() {
    for r in [TimeSumRoles::One, TimeSumRoles::Seven, TimeSumRoles::Fifteen] {
        assert_eq!(TimeSumRoles::from_role_id(r.to_role_id()), Some(r));
        assert_eq!(StreakRoles::from_role_id(r.to_role_id()), None);
    }
    for r in [StreakRoles::Egg, StreakRoles::Alien] {
        assert_eq!(StreakRoles::from_role_id(r.to_role_id()), Some(r));
    }
    let roles = vec![1, TimeSumRoles::Two.to_role_id(), StreakRoles::Owl.to_role_id()];
    assert_eq!(TimeSumRoles::current(&roles), vec![TimeSumRoles::Two.to_role_id()]);
    assert_eq!(StreakRoles::current(&roles), vec![StreakRoles::Owl.to_role_id()]);
}

#[test]
fn mentions_and_markup() {
    assert_eq!(Role(5).to_string(), "<@&5>");
    assert_eq!(Role(5).id(), 5);
    assert_eq!(Channel(7).to_string(), "<#7>");
    assert!(Channel(7).is(7));
    assert!(!Channel(7).is(8));
    assert_eq!(commands().glossary_info.to_string(), "</glossary info:1135659962308243479>");
    assert_eq!(emoji().mminfo.to_string(), "<:mminfo:1279517292455264359>");
    assert_eq!(emotes().star, "⭐");
    assert_eq!(entries_per_page().default, 10);
    let _ = roles().staff.id();
    let _ = channels().logs.id();
}

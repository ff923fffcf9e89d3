use bloom_bot::common::confirm_answer;
use bloom_bot::community_sit::{first_endable, first_startable, sit_confirmation, sit_log, EventStatus, SitEvent};
use bloom_bot::datetime::Instant;
use bloom_bot::winner::{
    challenge_month, challenge_period, expired_offer, key_answer, key_offer, meets_requirements,
    offer_log, redeemed_key_message, skips_previous_recipients, winner_announcement, KeyAnswer,
    Months, OfferOutcome,
};

fn at(secs: i64) -> Instant {
    Instant { secs, nanos: 0 }
}

fn event(name: &str, status: EventStatus, start: i64) -> SitEvent {
    SitEvent {
        id: 77,
        name: name.to_string(),
        description: Some("Sit with us.".to_string()),
        status,
        start_time: at(start),
        image: Some("abc".to_string()),
        channel_id: Some(5),
    }
}

#[test]
fn sits_start_near_their_time() {
    let now = 100_000;
    let events = vec![
        event("Morning Talk", EventStatus::Scheduled, now),
        event("Evening Silent Sit", EventStatus::Scheduled, now + 3600),
        event("Noon Silent Sit", EventStatus::Scheduled, now - 600),
    ];
    assert_eq!(first_startable(&events, at(now)), Some(2));
    let early = vec![
        event("Morning Talk", EventStatus::Scheduled, now),
        event("Evening Silent Sit", EventStatus::Scheduled, now + 3600),
    ];
    assert_eq!(first_startable(&early, at(now)), None);
    assert!(!event("Silent Sit", EventStatus::Scheduled, now + 900).is_startable(at(now)));
    assert!(event("Silent Sit", EventStatus::Scheduled, now + 899).is_startable(at(now)));
    let active = vec![event("Silent Sit", EventStatus::Scheduled, now), event("A Silent Sit", EventStatus::Active, now)];
    assert_eq!(first_endable(&active), Some(1));
}

#[test]
fn sit_texts() {
    let e = event("Noon Silent Sit", EventStatus::Scheduled, 1700000000);
    let (text, image) = sit_confirmation(&e, true);
    assert_eq!(
        text,
        "Starting Event:\n## Noon Silent Sit\nSit with us.\n-# Scheduled to begin <t:1700000000:R>."
    );
    assert_eq!(image.as_deref(), Some("https://cdn.discordapp.com/guild-events/77/abc?size=2048"));
    let (text, _) = sit_confirmation(&e, false);
    assert!(text.starts_with("Ending Event:\n## Noon Silent Sit\n"));
    let log = sit_log(&e, false, "helper", 9);
    assert_eq!(log.title, "Event Ended");
    assert_eq!(log.description, "**Event**: Noon Silent Sit\n**Channel:** <#5>");
    assert_eq!(log.footer.as_deref(), Some("Ended by helper (9)"));
    assert_eq!(confirm_answer("12confirm", 12), Some(true));
    assert_eq!(confirm_answer("12cancel", 12), Some(false));
    assert_eq!(confirm_answer("13confirm", 12), None);
}

#[test]
fn winner_month_and_period() {
    assert_eq!(challenge_month(Some(2023), Some(Months::March), 2024, 7), (2023, 3));
    assert_eq!(challenge_month(None, None, 2024, 7), (2024, 7));
    assert_eq!(Months::December.number(), 12);
    let (start, end) = challenge_period(2024, 12).unwrap();
    assert_eq!(start, at(1733011200));
    assert_eq!(end, at(1735689600));
    let (start, end) = challenge_period(2024, 2).unwrap();
    assert_eq!(end.secs - start.secs, 29 * 86400);
    assert!(challenge_period(2024, 13).is_none());
    assert!(challenge_period(2024, 0).is_none());
}

#[test]
fn winner_requirements() {
    assert!(meets_requirements(30, 8, None, None));
    assert!(!meets_requirements(29, 8, None, None));
    assert!(!meets_requirements(30, 7, None, None));
    assert!(meets_requirements(10, 1, Some(10), Some(1)));
    assert!(skips_previous_recipients(None));
    assert!(skips_previous_recipients(Some(false)));
    assert!(!skips_previous_recipients(Some(true)));
}

#[test]
fn key_offer_flow() {
    assert_eq!(key_answer("5redeem", 5), Some(KeyAnswer::Redeem));
    assert_eq!(key_answer("5cancel", 5), Some(KeyAnswer::Decline));
    assert_eq!(key_answer("5next", 5), None);
    assert_eq!(
        redeemed_key_message("AAAA"),
        "Awesome! Here is your key:\n```AAAA```\n[Redeem your key](https://store.steampowered.com/account/registerkey?key=AAAA)"
    );
    let offer = key_offer("Meditation Mind");
    assert_eq!(
        offer.footer.as_deref(),
        Some("From Meditation Mind | If you need any assistance, please contact server staff.")
    );
    let log = offer_log(OfferOutcome::Declined, 3, "sam");
    assert_eq!(log.title, "**Key Declined**");
    assert_eq!(log.description, "Playne key declined by <@3>. Key has been returned to the pool.");
    assert_eq!(log.footer.as_deref(), Some("sam (3)"));
    assert_eq!(expired_offer("G").footer.as_deref(), Some("From G"));
    let a = winner_announcement(3, 1234, at(1706745600), at(1709251200)).unwrap();
    assert_eq!(
        a.description,
        "**Meditator in the Spotlight for February**\nCongratulations to **<@3>** on winning our February challenge, with a meditation time of **1234** minutes for the month!"
    );
    assert_eq!(
        a.footer.as_deref(),
        Some("Meditation Challenge for February 2024 | Selected on March 01, 2024")
    );
}

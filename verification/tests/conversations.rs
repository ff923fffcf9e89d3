use bloom_bot::challenge::challenge_days;
use bloom_bot::charts::{chart_series, chart_title, chart_x_labels};
use bloom_bot::community_sit::{event_dialog, HostedEvent};
use bloom_bot::datetime::Instant;
use bloom_bot::dialog::{dialog_step, DialogAction, DialogEvent, DialogState};
use bloom_bot::rows::{removal_dialog, removal_prompt, update_reply, Recipient, RecipientUpdate};
use bloom_bot::stats::{ChartStyle, StatsType, Timeframe as Totals};
use bloom_bot::time::{ChallengeTimeframe, Timeframe};
use bloom_bot::winner::{
    offer_delivery, offer_step, search_step, winner_notified, KeyOffer, OfferAction, OfferDelivery, OfferEvent,
    OfferState, SearchAction, SearchEvent, SearchReply, SearchRules, SearchState,
};

const MID_MARCH: Instant = Instant { secs: 1710504000, nanos: 0 };

#[test]
fn removal_needs_yes_and_waits_after_no() {
    let d = removal_dialog(9);
    let (s, a) = dialog_step(&d, DialogState::Waiting, DialogEvent::Pressed("9cancel".to_string()));
    assert_eq!(a, DialogAction::Answer { text: "<:mmx:1279517275749089290> Cancelled.".to_string() });
    let (s, a) = dialog_step(&d, s, DialogEvent::Answered(true));
    assert_eq!((s, a), (DialogState::Waiting, DialogAction::KeepWaiting));
    let (s, a) = dialog_step(&d, s, DialogEvent::Pressed("8confirm".to_string()));
    assert_eq!((s, a), (DialogState::Waiting, DialogAction::KeepWaiting));
    let (s, a) = dialog_step(&d, s, DialogEvent::Pressed("9confirm".to_string()));
    assert_eq!(a, DialogAction::Answer { text: "<:mmcheck:1279517233877483601> Confirmed.".to_string() });
    let (s, a) = dialog_step(&d, s, DialogEvent::Answered(true));
    assert_eq!((s, a), (DialogState::Done, DialogAction::Proceed));
}

#[test]
fn removal_is_dropped_after_a_minute_and_fails_without_answer() {
    let d = removal_dialog(9);
    let (s, a) = dialog_step(&d, DialogState::Waiting, DialogEvent::TimedOut);
    assert_eq!((s, a), (DialogState::Done, DialogAction::Stop));
    let (s, _) = dialog_step(&d, DialogState::Waiting, DialogEvent::Pressed("9confirm".to_string()));
    let (s, a) = dialog_step(&d, s, DialogEvent::Answered(false));
    assert_eq!((s, a), (DialogState::Failed, DialogAction::Fail));
}

#[test]
fn recipient_update_replies() {
    assert_eq!(update_reply(&RecipientUpdate::NoInput).unwrap(), "<:mminfo:1279517292455264359> No input provided. Update aborted.");
    assert_eq!(
        update_reply(&RecipientUpdate::NeedsKeyCount).unwrap(),
        "<:mminfo:1279517292455264359> No existing record for recipient. Please specify a number of keys to create a new record."
    );
    let r = || Recipient { guild_id: 1, user_id: 2, challenge_prize: None, donator_perk: Some(true), total_keys: 1 };
    assert_eq!(
        update_reply(&RecipientUpdate::Add(r())).unwrap(),
        "<:mmcheck:1279517233877483601> Recipient has been added to the database."
    );
    assert_eq!(update_reply(&RecipientUpdate::Update(r())).unwrap(), "<:mmcheck:1279517233877483601> Recipient has been updated.");
    assert!(update_reply(&RecipientUpdate::ConfirmRemoval).is_none());
    assert_eq!(removal_prompt(2), "Are you sure you want to remove <@2> from the recipient database?");
}

#[test]
fn sit_start_confirmation_answers_and_proceeds() {
    let d = event_dialog(HostedEvent::CommunitySit, true, 5);
    let (s, a) = dialog_step(&d, DialogState::Waiting, DialogEvent::Pressed("5confirm".to_string()));
    assert_eq!(a, DialogAction::Answer { text: "<:mminfo:1279517292455264359> Event started. Enjoy your sit!".to_string() });
    let (_, a) = dialog_step(&d, s, DialogEvent::Answered(true));
    assert_eq!(a, DialogAction::Proceed);
    let d = event_dialog(HostedEvent::BookClub, false, 5);
    let (s, a) = dialog_step(&d, DialogState::Waiting, DialogEvent::Pressed("5cancel".to_string()));
    assert_eq!(a, DialogAction::Answer { text: "<:mmx:1279517275749089290> Cancelled.".to_string() });
    assert_eq!(s, DialogState::AnsweringCancel);
}

fn offer() -> KeyOffer<String> {
    KeyOffer { winner: 7, interaction_id: 3, key: "AAAA-BBBB".to_string() }
}

#[test]
fn key_offer_counts_only_the_winners_presses() {
    let o = offer();
    let (s, a) = offer_step(&o, OfferState::Waiting, OfferEvent::Pressed { user: 8, custom_id: "3redeem".to_string() });
    assert_eq!((s, a), (OfferState::Waiting, OfferAction::KeepWaiting));
    let (s, a) = offer_step(&o, s, OfferEvent::Pressed { user: 7, custom_id: "3redeem".to_string() });
    assert_eq!(s, OfferState::Done);
    assert_eq!(
        a,
        OfferAction::Redeem {
            message: "Awesome! Here is your key:\n```AAAA-BBBB```\n[Redeem your key](https://store.steampowered.com/account/registerkey?key=AAAA-BBBB)".to_string()
        }
    );
    let (_, a) = offer_step(&o, s, OfferEvent::TimedOut);
    assert_eq!(a, OfferAction::Ignore);
}

#[test]
fn key_offer_decline_and_expiry() {
    let o = offer();
    let (_, a) = offer_step(&o, OfferState::Waiting, OfferEvent::Pressed { user: 7, custom_id: "3cancel".to_string() });
    assert_eq!(a, OfferAction::Decline { message: "Alright, we'll keep it for someone else. Congrats again!".to_string() });
    let (s, a) = offer_step(&o, OfferState::Waiting, OfferEvent::TimedOut);
    assert_eq!((s, a), (OfferState::Done, OfferAction::Expire));
}

#[test]
fn key_offer_falls_back_to_a_private_thread() {
    assert_eq!(offer_delivery(true, 7), OfferDelivery::DirectMessage);
    assert_eq!(
        offer_delivery(false, 7),
        OfferDelivery::PrivateThread {
            name: "Private Notification: You won!".to_string(),
            intro: "Private notification for <@7>:".to_string()
        }
    );
    assert_eq!(winner_notified(7), "<:mmcheck:1279517233877483601> Notified <@7> and sent announcement!");
}

#[test]
fn winner_search_takes_the_first_qualifying_candidate() {
    let rules = SearchRules { allow_multiple_keys: None, minimum_minutes: None, minimum_count: None };
    let (s, a) = search_step(rules, SearchState::Next, SearchEvent::Candidate(Some(Some(4))));
    assert_eq!(a, SearchAction::FetchMember(4));
    let (s, a) = search_step(rules, s, SearchEvent::Member(Some(vec![1])));
    assert_eq!((s, a), (SearchState::Next, SearchAction::FetchNext));
    let (s, _) = search_step(rules, s, SearchEvent::Candidate(Some(Some(5))));
    let (s, a) = search_step(rules, s, SearchEvent::Member(Some(vec![796821826369617970])));
    assert_eq!(a, SearchAction::CheckRecipient(5));
    let (s, a) = search_step(rules, s, SearchEvent::RecipientChecked(false));
    assert_eq!(a, SearchAction::FetchTotals(5));
    let (s2, a) = search_step(rules, s, SearchEvent::Totals { minutes: 29, count: 20 });
    assert_eq!((s2, a), (SearchState::Next, SearchAction::FetchNext));
    let (s, a) = search_step(rules, s, SearchEvent::Totals { minutes: 30, count: 8 });
    assert_eq!(a, SearchAction::ReserveKey(5));
    let (s, a) = search_step(rules, s, SearchEvent::Reserved(true));
    assert_eq!((s, a), (SearchState::Done, SearchAction::Finalize { winner: 5, minutes: 30 }));
}

#[test]
fn winner_search_without_candidates_finds_no_winner() {
    let rules = SearchRules { allow_multiple_keys: Some(true), minimum_minutes: Some(10), minimum_count: Some(1) };
    let (s, a) = search_step(rules, SearchState::Next, SearchEvent::Candidate(None));
    assert_eq!((s, a), (SearchState::Done, SearchAction::Reply(SearchReply::NoWinner)));
    assert_eq!(SearchReply::NoWinner.message(), "No winner found.");
    let (_, a) = search_step(rules, SearchState::Member(3), SearchEvent::Member(Some(vec![796821826369617970])));
    assert_eq!(a, SearchAction::FetchTotals(3));
    let (_, a) = search_step(rules, SearchState::Reserving(3, 50), SearchEvent::Reserved(false));
    assert_eq!(a, SearchAction::Reply(SearchReply::NoUnusedKeys));
    assert_eq!(
        SearchReply::NoUnusedKeys.message(),
        "<:mminfo:1279517292455264359> No unused keys found. Please add one and try again."
    );
}

#[test]
fn chart_titles_and_series() {
    assert_eq!(chart_title(StatsType::MeditationMinutes, ChartStyle::Bar), "Meditation Minutes");
    assert_eq!(chart_title(StatsType::MeditationCount, ChartStyle::Area), "Meditation Sessions");
    assert_eq!(chart_title(StatsType::MeditationCount, ChartStyle::BarCombined), "");
    let mut stats: Vec<Totals> = (0..12i64).map(|i| Totals { sum: Some(i * 10), count: Some(i) }).collect();
    stats[0] = Totals { sum: None, count: None };
    let s = chart_series(&stats, StatsType::MeditationMinutes, ChartStyle::Bar).unwrap();
    assert_eq!(s.len(), 1);
    assert_eq!(s[0].0, "Minutes");
    assert_eq!(s[0].1[0], 0);
    assert_eq!(s[0].1[11], 110);
    let s = chart_series(&stats, StatsType::MeditationMinutes, ChartStyle::BarCombined).unwrap();
    assert_eq!(s[1].0, "Sessions");
    assert_eq!(s[1].1[5], 5);
    stats.pop();
    assert!(chart_series(&stats, StatsType::MeditationCount, ChartStyle::Bar).is_none());
}

#[test]
fn chart_labels_for_each_timeframe() {
    let d = chart_x_labels(MID_MARCH, 0, Timeframe::Daily).unwrap();
    assert_eq!(d[0], "03/04");
    assert_eq!(d[11], "03/15");
    let d = chart_x_labels(MID_MARCH, -780, Timeframe::Daily).unwrap();
    assert_eq!(d[11], "03/14");
    let w = chart_x_labels(MID_MARCH, 0, Timeframe::Weekly).unwrap();
    assert_eq!(w[0], "12/25");
    assert_eq!(w[11], "03/11");
    let m = chart_x_labels(MID_MARCH, 0, Timeframe::Monthly).unwrap();
    let expected = ["23/04", "23/05", "23/06", "23/07", "23/08", "23/09", "23/10", "23/11", "23/12", "24/01", "24/02", "24/03"];
    assert_eq!(m, expected.iter().map(|s| s.to_string()).collect::<Vec<String>>());
    let y = chart_x_labels(MID_MARCH, 0, Timeframe::Yearly).unwrap();
    assert_eq!(y[0], "2013");
    assert_eq!(y[11], "2024");
}

#[test]
fn challenge_days_count_whole_days_and_never_zero() {
    assert_eq!(challenge_days(MID_MARCH, ChallengeTimeframe::Monthly), Some(14));
    assert_eq!(challenge_days(MID_MARCH, ChallengeTimeframe::YearRound), Some(74));
    assert_eq!(challenge_days(Instant { secs: 1709269200, nanos: 0 }, ChallengeTimeframe::Monthly), Some(1));
}

use bloom_bot::common::{
    decode_id_row, decode_option_id_row, MaterializedView, Migration, MigrationType, ViewType,
    Visibility,
};
use bloom_bot::datetime::Instant;
use bloom_bot::pagination::{PageRow, PageType};
use bloom_bot::quote::{Quote, QuoteData, QuoteError, QuoteModal};
use bloom_bot::records::ChallengeTimeframe;
use bloom_bot::rows::{Bookmark, Course, Erase, Recipient, StarMessage, SteamKey};
use bloom_bot::time::Timeframe;
use bloom_bot::tracking_profile::Privacy;

#[test]
fn quotes_are_listed_with_their_author() {
    let q = QuoteData { id: "01J".to_string(), quote: "Be still.".to_string(), author: None };
    assert_eq!(q.title(PageType::Standard), "`ID: 01J`");
    assert_eq!(q.body(), "Be still.\n― Anonymous");
    let modal = QuoteModal { quote: "Breathe.".to_string(), author: Some("Thich Nhat Hanh".to_string()) };
    let q = Quote::new_from_modal(3, modal);
    assert_eq!(q.id.len(), 26);
    assert_eq!(q.guild_id, 3);
    assert_eq!(q.body(), "Breathe.\n― Thich Nhat Hanh");
}

#[test]
fn modal_needs_a_valid_id() {
    let modal = QuoteModal { quote: "x".to_string(), author: None };
    let q = modal.into_quote(1, "01ARZ3NDEKTSV4RRFFQ69G5FAV".to_string()).unwrap();
    assert_eq!(q.id, "01ARZ3NDEKTSV4RRFFQ69G5FAV");
    let back = QuoteModal::from_quote(q);
    assert_eq!(back.quote, "x");
    let modal = QuoteModal { quote: "x".to_string(), author: None };
    assert!(matches!(modal.into_quote(1, "not-an-id".to_string()), Err(QuoteError::InvalidId)));
    let modal = QuoteModal { quote: "x".to_string(), author: None };
    assert!(modal.into_quote(1, "01arz3ndektsv4rrffq69g5fav".to_string()).is_ok());
}

#[test]
fn steam_keys_and_recipients() {
    let mut k = SteamKey::new(1, "AAAA-BBBB".to_string());
    assert_eq!(k.title(PageType::Standard), "AAAA-BBBB");
    assert_eq!(k.body(), "Used: No\nReserved for: Nobody");
    k.used = true;
    k.reserved = Some(99);
    assert_eq!(k.body(), "Used: Yes\nReserved for: <@99>");
    let r = Recipient::new(1, 42, Some(true), None, 3);
    assert_eq!(r.title(PageType::Alternate), "__Recipient__");
    assert_eq!(r.body(), "Name: <@42>\nDonator Perk: No\nChallenge Prize: Yes\nTotal Keys: 3");
}

#[test]
fn bookmarks_courses_and_erases() {
    let mut b = Bookmark::new(1, 2, "https://discord.com/x".to_string(), Some("note".to_string()));
    assert_eq!(b.id().len(), 26);
    assert!(b.added().is_none());
    b.id = "ID1".to_string();
    b.added = Some(Instant { secs: 1700000000, nanos: 0 });
    assert_eq!(b.title(PageType::Standard), "https://discord.com/x");
    assert_eq!(
        b.body(),
        "> note\n> -# Added: <t:1700000000:f>\n> -# ID: [ID1](discord://ID1 \"For copying a bookmark ID on mobile. Not a working link.\")\n** **"
    );
    let c = Course::new("Intro".to_string(), 10, 11, 1);
    assert_eq!(c.title(PageType::Standard), "`Intro`");
    assert_eq!(c.body(), "Participants: <@&10>\nGraduates: <@&11>");
    let e = Erase::default();
    assert_eq!(e.title(PageType::Standard).unwrap(), "Date: `Not Available`");
    assert_eq!(e.body(), "**Reason:** No reason provided.\n-# Notification not available");
    let e = Erase::new(1, 2, "https://l".to_string(), "spam".to_string(), Instant { secs: 86400, nanos: 0 });
    assert_eq!(e.title(PageType::Standard).unwrap(), "Date: `1970-01-02 00:00`");
    assert_eq!(e.title(PageType::Alternate).unwrap(), "Date: ` 2 January 1970 00:00`");
    assert_eq!(e.body(), "**Reason:** spam\n[Go to erase notification](https://l)");
    let s = StarMessage::new(1, 2, 3);
    assert_eq!(s.id.len(), 26);
}

#[test]
fn shared_pieces() {
    assert_eq!(Visibility::from(Privacy::Private), Visibility::Ephemeral);
    assert_eq!(Visibility::from(Privacy::Public), Visibility::Public);
    let q = Migration::new(5, 6, 7, MigrationType::MeditationEntries).update_query();
    assert_eq!(q.sql, "UPDATE meditation SET user_id = $3 WHERE user_id = $1 AND guild_id = $2");
    assert_eq!(q.binds, vec!["6".to_string(), "5".to_string(), "7".to_string()]);
    assert_eq!(
        MaterializedView::refresh(ViewType::Leaderboard, Timeframe::Daily),
        "REFRESH MATERIALIZED VIEW CONCURRENTLY daily_leaderboard"
    );
    assert_eq!(
        MaterializedView::refresh(ViewType::ChartStats, Timeframe::Monthly),
        "REFRESH MATERIALIZED VIEW monthly_data"
    );
    assert_eq!(ChallengeTimeframe::YearRound.name(), "365-Day Challenge");
}

#[test]
fn stored_identifiers() {
    assert!(matches!(decode_id_row(Some("1300863845429936139"), "guild_id"), Ok(1300863845429936139)));
    assert!(matches!(decode_id_row(None, "guild_id"), Ok(1)));
    assert!(matches!(decode_id_row(Some("+42"), "guild_id"), Ok(42)));
    let err = decode_id_row(Some("-1"), "user_id").err().unwrap();
    assert_eq!(err.index, "user_id");
    assert!(decode_id_row(Some("18446744073709551616"), "x").is_err());
    assert!(matches!(decode_id_row(Some("18446744073709551615"), "x"), Ok(u64::MAX)));
    assert!(matches!(decode_option_id_row(None, "x"), Ok(None)));
    assert!(matches!(decode_option_id_row(Some("9"), "x"), Ok(Some(9))));
    assert!(decode_option_id_row(Some(""), "x").is_err());
}

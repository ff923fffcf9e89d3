//! Picking the monthly challenge winner: the month and period examined, who
//! qualifies, the offer of a Steam key and what each answer to it produces.
use vstd::prelude::*;
use crate::datetime::{Instant, format_utc, utc_format};
use crate::common::button_id;
use crate::pagination::PageEmbed;
use crate::text::{int_decimal, nat_decimal, push_i64, push_str, push_u64, str_to_string};

verus! {

/// The months a challenge can be picked for.
#[derive(Debug, Clone, Copy, PartialEq, Eq, Structural)]
pub enum Months {
    January,
    February,
    March,
    April,
    May,
    June,
    July,
    August,
    September,
    October,
    November,
    December,
}

/// The number of a month, January being 1.
pub open spec fn month_number(m: Months) -> u32 {
    match m {
        Months::January => 1,
        Months::February => 2,
        Months::March => 3,
        Months::April => 4,
        Months::May => 5,
        Months::June => 6,
        Months::July => 7,
        Months::August => 8,
        Months::September => 9,
        Months::October => 10,
        Months::November => 11,
        Months::December => 12,
    }
}

impl Months {
    /// The number of the month, January being 1.
    pub fn number(self) -> (n: u32)
        ensures
            n == month_number(self),
            1 <= n <= 12,
    {
        match self {
            Months::January => 1,
            Months::February => 2,
            Months::March => 3,
            Months::April => 4,
            Months::May => 5,
            Months::June => 6,
            Months::July => 7,
            Months::August => 8,
            Months::September => 9,
            Months::October => 10,
            Months::November => 11,
            Months::December => 12,
        }
    }
}

} // verus!

verus! {

/// The year and month a pick is for: the ones given, else the current ones.
pub fn challenge_month(year: Option<i32>, month: Option<Months>, now_year: i32, now_month: u32) -> (r: (
    i32,
    u32,
))
    ensures
        r.0 == match year {
            Some(y) => y,
            None => now_year,
        },
        r.1 == match month {
            Some(m) => month_number(m),
            None => now_month,
        },
{
    let y = match year {
        Some(y) => y,
        None => now_year,
    };
    let m = match month {
        Some(m) => m.number(),
        None => now_month,
    };
    (y, m)
}

/// The UTC timestamp of midnight starting the first day of `month` in `year`,
/// as `chrono` computes it, or `None` when that date does not exist for it.
pub uninterp spec fn utc_month_start(year: i32, month: u32) -> Option<i64>;

/// Midnight (UTC) of the first day of a month, through
/// `chrono::NaiveDate::from_ymd_opt(year, month, 1)`. The timestamp is only
/// named; what is stated is that a month number outside 1 to 12 gives `None`,
/// as the documentation of `from_ymd_opt` says.
#[verifier::external_body]
pub(crate) fn month_start(year: i32, month: u32) -> (r: Option<Instant>)
    ensures
        match utc_month_start(year, month) {
            Some(s) => r == Some(Instant { secs: s, nanos: 0 }),
            None => r is None,
        },
        !(1 <= month <= 12) ==> r is None,
{
    match chrono::NaiveDate::from_ymd_opt(year, month, 1) {
        Some(d) => Some(Instant { secs: d.and_time(chrono::NaiveTime::MIN).and_utc().timestamp(), nanos: 0 }),
        None => None,
    }
}

/// The month after `month` of `year`.
pub open spec fn next_month(year: int, month: int) -> (int, int) {
    if month >= 12 {
        (year + 1, 1)
    } else {
        (year, month + 1)
    }
}

/// The challenge period of a month: from midnight starting its first day to
/// midnight starting the first day of the next month; `None` when either date
/// does not exist.
pub fn challenge_period(year: i32, month: u32) -> (r: Option<(Instant, Instant)>)
    ensures
        r is Some ==> 1 <= month <= 12,
        1 <= month <= 12 && (month < 12 || year < i32::MAX) ==> {
            let (ny, nm) = next_month(year as int, month as int);
            match (utc_month_start(year, month), utc_month_start(ny as i32, nm as u32)) {
                (Some(s), Some(e)) => r == Some(
                    (Instant { secs: s, nanos: 0 }, Instant { secs: e, nanos: 0 }),
                ),
                _ => r is None,
            }
        },
        month == 12 && year == i32::MAX ==> r is None,
{
    let start = match month_start(year, month) {
        Some(s) => s,
        None => return None,
    };
    let (ny, nm): (i32, u32) = if month >= 12 {
        if year == i32::MAX {
            return None;
        }
        (year + 1, 1)
    } else {
        (year, month + 1)
    };
    match month_start(ny, nm) {
        Some(end) => Some((start, end)),
        None => None,
    }
}

/// Whether members who already received a key are passed over.
pub fn skips_previous_recipients(allow_multiple_keys: Option<bool>) -> (b: bool)
    ensures
        b == !(allow_multiple_keys == Some(true)),
{
    match allow_multiple_keys {
        Some(true) => false,
        _ => true,
    }
}

/// Whether a candidate tracked enough in the period: at least the minimum
/// minutes (30 unless given) and the minimum sessions (8 unless given).
pub fn meets_requirements(
    minutes: i64,
    count: u64,
    minimum_minutes: Option<i64>,
    minimum_count: Option<u64>,
) -> (b: bool)
    ensures
        b == (minutes >= match minimum_minutes {
            Some(m) => m,
            None => 30,
        } && count >= match minimum_count {
            Some(c) => c,
            None => 8,
        }),
{
    let min_minutes: i64 = match minimum_minutes {
        Some(m) => m,
        None => 30,
    };
    let min_count: u64 = match minimum_count {
        Some(c) => c,
        None => 8,
    };
    !(minutes < min_minutes || count < min_count)
}

/// A member's answer to the key offer.
#[derive(Debug, Clone, Copy, PartialEq, Eq, Structural)]
pub enum KeyAnswer {
    Redeem,
    Decline,
}

/// The answer a pressed button gives; `None` for an unrelated button.
pub fn key_answer(custom_id: &str, ctx_id: u64) -> (a: Option<KeyAnswer>)
    ensures
        a == (if custom_id@ == button_id(ctx_id, "redeem"@) {
            Some(KeyAnswer::Redeem)
        } else if custom_id@ == button_id(ctx_id, "cancel"@) {
            Some(KeyAnswer::Decline)
        } else {
            None
        }),
{
    let id = str_to_string(custom_id);
    let mut redeem = String::new();
    push_u64(&mut redeem, ctx_id);
    push_str(&mut redeem, "redeem");
    let mut cancel = String::new();
    push_u64(&mut cancel, ctx_id);
    push_str(&mut cancel, "cancel");
    if id == redeem {
        Some(KeyAnswer::Redeem)
    } else if id == cancel {
        Some(KeyAnswer::Decline)
    } else {
        None
    }
}

/// The announcement of the winner of the challenge of `selected_date`'s month,
/// made at `now`; `None` when a date cannot be rendered.
pub fn winner_announcement(winner_id: u64, minutes: i64, selected_date: Instant, now: Instant) -> (e:
    Option<PageEmbed>)
    ensures
        match (
            utc_format(selected_date.secs, selected_date.nanos, "%B"@),
            utc_format(selected_date.secs, selected_date.nanos, "%B %Y"@),
            utc_format(now.secs, now.nanos, "%B %d, %Y"@),
        ) {
            (Some(month), Some(month_year), Some(today)) => {
                &&& e is Some
                &&& e->0.title@ == ":tada: Monthly Challenge Winner :tada:"@
                &&& e->0.description@ == "**Meditator in the Spotlight for "@ + month
                    + "**\nCongratulations to **<@"@ + nat_decimal(winner_id as nat)
                    + ">** on winning our "@ + month + " challenge, with a meditation time of **"@
                    + int_decimal(minutes as int) + "** minutes for the month!"@
                &&& e->0.fields@.len() == 0
                &&& e->0.footer matches Some(f) && f@ == "Meditation Challenge for "@ + month_year
                    + " | Selected on "@ + today
            },
            _ => e is None,
        },
{
    let month = match format_utc(selected_date, "%B") {
        Some(m) => m,
        None => return None,
    };
    let month_year = match format_utc(selected_date, "%B %Y") {
        Some(m) => m,
        None => return None,
    };
    let today = match format_utc(now, "%B %d, %Y") {
        Some(t) => t,
        None => return None,
    };
    let mut description = String::new();
    push_str(&mut description, "**Meditator in the Spotlight for ");
    push_str(&mut description, month.as_str());
    push_str(&mut description, "**\nCongratulations to **<@");
    push_u64(&mut description, winner_id);
    push_str(&mut description, ">** on winning our ");
    push_str(&mut description, month.as_str());
    push_str(&mut description, " challenge, with a meditation time of **");
    push_i64(&mut description, minutes);
    push_str(&mut description, "** minutes for the month!");
    let mut footer = String::new();
    push_str(&mut footer, "Meditation Challenge for ");
    push_str(&mut footer, month_year.as_str());
    push_str(&mut footer, " | Selected on ");
    push_str(&mut footer, today.as_str());
    Some(
        PageEmbed {
            title: str_to_string(":tada: Monthly Challenge Winner :tada:"),
            description,
            fields: Vec::new(),
            footer: Some(footer),
        },
    )
}

/// The text of the key offer.
pub open spec fn offer_text() -> Seq<char> {
    "You've won a key for [Playne: The Meditation Game](<https://store.steampowered.com/app/865540/PLAYNE__The_Meditation_Game/>) on Steam!\n\n**Would you like to redeem your key? If yes, press 'Redeem' below! Otherwise, click 'Cancel' to leave it for someone else :)**"@
}

/// The private offer of a key to the winner, from the guild `guild_name`.
pub fn key_offer(guild_name: &str) -> (e: PageEmbed)
    ensures
        e.title@ == ":tada: You've won a key! :tada:"@,
        e.description@ == Seq::<char>::empty(),
        e.fields@.len() == 1,
        e.fields@[0].0@ == "**Congratulations on winning the giveaway!** 🥳"@,
        e.fields@[0].1@ == offer_text(),
        e.footer matches Some(f) && f@ == "From "@ + guild_name@
            + " | If you need any assistance, please contact server staff."@,
{
    let mut footer = String::new();
    push_str(&mut footer, "From ");
    push_str(&mut footer, guild_name);
    push_str(&mut footer, " | If you need any assistance, please contact server staff.");
    let mut fields: Vec<(String, String)> = Vec::new();
    fields.push(
        (
            str_to_string("**Congratulations on winning the giveaway!** 🥳"),
            str_to_string(
                "You've won a key for [Playne: The Meditation Game](<https://store.steampowered.com/app/865540/PLAYNE__The_Meditation_Game/>) on Steam!\n\n**Would you like to redeem your key? If yes, press 'Redeem' below! Otherwise, click 'Cancel' to leave it for someone else :)**",
            ),
        ),
    );
    PageEmbed {
        title: str_to_string(":tada: You've won a key! :tada:"),
        description: String::new(),
        fields,
        footer: Some(footer),
    }
}

/// The message that hands over a redeemed key with its redemption link.
pub fn redeemed_key_message(key: &str) -> (s: String)
    ensures
        s@ == "Awesome! Here is your key:\n```"@ + key@
            + "```\n[Redeem your key](https://store.steampowered.com/account/registerkey?key="@
            + key@ + ")"@,
{
    let mut s = String::new();
    push_str(&mut s, "Awesome! Here is your key:\n```");
    push_str(&mut s, key);
    push_str(&mut s, "```\n[Redeem your key](https://store.steampowered.com/account/registerkey?key=");
    push_str(&mut s, key);
    push_str(&mut s, ")");
    s
}

/// How a key offer ended.
#[derive(Debug, Clone, Copy, PartialEq, Eq, Structural)]
pub enum OfferOutcome {
    Redeemed,
    Declined,
    TimedOut,
}

/// The title of the log entry for an offer's outcome.
pub open spec fn outcome_title(o: OfferOutcome) -> Seq<char> {
    match o {
        OfferOutcome::Redeemed => "**Key Redeemed**"@,
        OfferOutcome::Declined => "**Key Declined**"@,
        OfferOutcome::TimedOut => "**Key Offer Timed Out**"@,
    }
}

/// The description of the log entry for an offer's outcome.
pub open spec fn outcome_description(o: OfferOutcome, user_id: u64) -> Seq<char> {
    let who = "<@"@ + nat_decimal(user_id as nat) + ">"@;
    match o {
        OfferOutcome::Redeemed => "Playne key redeemed by "@ + who
            + ". Key has been marked as used."@,
        OfferOutcome::Declined => "Playne key declined by "@ + who
            + ". Key has been returned to the pool."@,
        OfferOutcome::TimedOut => "Sent Playne key offer to "@ + who
            + ", but user did not respond within 24 hours. Key has been returned to the pool and user has been asked to contact a moderator if they wish to claim their key."@,
    }
}

/// The log entry for an offer's outcome for the member `user_id` named `user_name`.
pub fn offer_log(outcome: OfferOutcome, user_id: u64, user_name: &str) -> (e: PageEmbed)
    ensures
        e.title@ == outcome_title(outcome),
        e.description@ == outcome_description(outcome, user_id),
        e.fields@.len() == 0,
        e.footer matches Some(f) && f@ == user_name@ + " ("@ + nat_decimal(user_id as nat) + ")"@,
{
    let title = match outcome {
        OfferOutcome::Redeemed => str_to_string("**Key Redeemed**"),
        OfferOutcome::Declined => str_to_string("**Key Declined**"),
        OfferOutcome::TimedOut => str_to_string("**Key Offer Timed Out**"),
    };
    let mut description = String::new();
    match outcome {
        OfferOutcome::Redeemed => push_str(&mut description, "Playne key redeemed by "),
        OfferOutcome::Declined => push_str(&mut description, "Playne key declined by "),
        OfferOutcome::TimedOut => push_str(&mut description, "Sent Playne key offer to "),
    }
    push_str(&mut description, "<@");
    push_u64(&mut description, user_id);
    push_str(&mut description, ">");
    match outcome {
        OfferOutcome::Redeemed => push_str(&mut description, ". Key has been marked as used."),
        OfferOutcome::Declined => push_str(
            &mut description,
            ". Key has been returned to the pool.",
        ),
        OfferOutcome::TimedOut => push_str(
            &mut description,
            ", but user did not respond within 24 hours. Key has been returned to the pool and user has been asked to contact a moderator if they wish to claim their key.",
        ),
    }
    let mut footer = String::new();
    push_str(&mut footer, user_name);
    push_str(&mut footer, " (");
    push_u64(&mut footer, user_id);
    push_str(&mut footer, ")");
    PageEmbed { title, description, fields: Vec::new(), footer: Some(footer) }
}

/// The offer as it is left when the winner did not answer in time.
pub fn expired_offer(guild_name: &str) -> (e: PageEmbed)
    ensures
        e.title@ == "**Congratulations on winning the giveaway!** 🥳"@,
        e.description@
            == "You've won a key for [Playne: The Meditation Game](<https://store.steampowered.com/app/865540/PLAYNE__The_Meditation_Game/>) on Steam!\n\n**Would you like to redeem your key? Please contact server staff and we'll get one to you!**"@,
        e.fields@.len() == 0,
        e.footer matches Some(f) && f@ == "From "@ + guild_name@,
{
    let mut footer = String::new();
    push_str(&mut footer, "From ");
    push_str(&mut footer, guild_name);
    PageEmbed {
        title: str_to_string("**Congratulations on winning the giveaway!** 🥳"),
        description: str_to_string(
            "You've won a key for [Playne: The Meditation Game](<https://store.steampowered.com/app/865540/PLAYNE__The_Meditation_Game/>) on Steam!\n\n**Would you like to redeem your key? Please contact server staff and we'll get one to you!**",
        ),
        fields: Vec::new(),
        footer: Some(footer),
    }
}

} // verus!

verus! {

/// How the key offer reaches the winner.
#[derive(Debug, PartialEq, Eq)]
pub enum OfferDelivery<T> {
    /// In a direct message.
    DirectMessage,
    /// In a new private thread of this name, opened by this line that
    /// mentions the winner, when a direct message could not be sent.
    PrivateThread { name: T, intro: T },
}

/// Where the offer goes: a direct message when the test message could be
/// sent there (`dm_ok`), otherwise a private thread.
pub fn offer_delivery(dm_ok: bool, winner: u64) -> (d: OfferDelivery<String>)
    ensures
        dm_ok ==> d == OfferDelivery::<String>::DirectMessage,
        !dm_ok ==> (d matches OfferDelivery::PrivateThread { name, intro } && name@ == "Private Notification: You won!"@
            && intro@ == "Private notification for <@"@ + nat_decimal(winner as nat) + ">:"@),
{
    if dm_ok {
        OfferDelivery::DirectMessage
    } else {
        let mut intro = String::new();
        push_str(&mut intro, "Private notification for <@");
        push_u64(&mut intro, winner);
        push_str(&mut intro, ">:");
        OfferDelivery::PrivateThread { name: str_to_string("Private Notification: You won!"), intro }
    }
}

/// The reply to the staff member once the winner is notified.
pub fn winner_notified(winner: u64) -> (s: String)
    ensures
        s@ == "<:mmcheck:1279517233877483601> Notified <@"@ + nat_decimal(winner as nat) + "> and sent announcement!"@,
{
    let mut s = String::new();
    push_str(&mut s, "<:mmcheck:1279517233877483601> Notified <@");
    push_u64(&mut s, winner);
    push_str(&mut s, "> and sent announcement!");
    s
}

/// A key offered to the challenge winner `winner` by the interaction
/// `interaction_id`. `T` is the text type.
#[derive(Debug, PartialEq, Eq)]
pub struct KeyOffer<T> {
    pub winner: u64,
    pub interaction_id: u64,
    pub key: T,
}

/// Whether the offer is still open.
#[derive(Debug, Clone, Copy, PartialEq, Eq, Structural)]
pub enum OfferState {
    Waiting,
    Done,
}

/// What happened while the offer is open.
#[derive(Debug, PartialEq, Eq)]
pub enum OfferEvent<T> {
    /// The member `user` pressed the button `custom_id`.
    Pressed { user: u64, custom_id: T },
    /// A day passed without an answer.
    TimedOut,
}

/// What the command does next.
#[derive(Debug, PartialEq, Eq)]
pub enum OfferAction<T> {
    /// Keep waiting for the winner's answer.
    KeepWaiting,
    /// Mark the key used, record the member as a recipient, remove the
    /// buttons, send `message` where the offer was made and log the
    /// redemption (see [`offer_log`]).
    Redeem { message: T },
    /// Return the key to the pool, remove the buttons, send `message` where
    /// the offer was made and log the refusal.
    Decline { message: T },
    /// Replace the offer with the expired one (see [`expired_offer`]), without
    /// buttons, and log the timeout.
    Expire,
    /// The offer is closed; nothing to do.
    Ignore,
}

impl View for KeyOffer<String> {
    type V = KeyOffer<Seq<char>>;

    open spec fn view(&self) -> KeyOffer<Seq<char>> {
        KeyOffer { winner: self.winner, interaction_id: self.interaction_id, key: self.key@ }
    }
}

impl View for OfferEvent<String> {
    type V = OfferEvent<Seq<char>>;

    open spec fn view(&self) -> OfferEvent<Seq<char>> {
        match self {
            OfferEvent::Pressed { user, custom_id } => OfferEvent::Pressed { user: *user, custom_id: custom_id@ },
            OfferEvent::TimedOut => OfferEvent::TimedOut,
        }
    }
}

impl View for OfferAction<String> {
    type V = OfferAction<Seq<char>>;

    open spec fn view(&self) -> OfferAction<Seq<char>> {
        match self {
            OfferAction::KeepWaiting => OfferAction::KeepWaiting,
            OfferAction::Redeem { message } => OfferAction::Redeem { message: message@ },
            OfferAction::Decline { message } => OfferAction::Decline { message: message@ },
            OfferAction::Expire => OfferAction::Expire,
            OfferAction::Ignore => OfferAction::Ignore,
        }
    }
}

/// The message that hands over the key `key`.
pub open spec fn redeemed_text(key: Seq<char>) -> Seq<char> {
    "Awesome! Here is your key:\n```"@ + key + "```\n[Redeem your key](https://store.steampowered.com/account/registerkey?key="@
        + key + ")"@
}

/// One step of the key offer. Only the winner's presses count: the redeem
/// button hands over the key, the cancel button returns it to the pool with
/// a thank-you, and any other press, or a press by someone else, leaves the
/// offer open. A day without an answer closes the offer as expired.
pub open spec fn offer_transition(o: KeyOffer<Seq<char>>, s: OfferState, e: OfferEvent<Seq<char>>) -> (
    OfferState,
    OfferAction<Seq<char>>,
) {
    match s {
        OfferState::Waiting => match e {
            OfferEvent::Pressed { user, custom_id } => if user != o.winner {
                (s, OfferAction::KeepWaiting)
            } else if custom_id == button_id(o.interaction_id, "redeem"@) {
                (OfferState::Done, OfferAction::Redeem { message: redeemed_text(o.key) })
            } else if custom_id == button_id(o.interaction_id, "cancel"@) {
                (OfferState::Done, OfferAction::Decline {
                    message: "Alright, we'll keep it for someone else. Congrats again!"@,
                })
            } else {
                (s, OfferAction::KeepWaiting)
            },
            OfferEvent::TimedOut => (OfferState::Done, OfferAction::Expire),
        },
        OfferState::Done => (s, OfferAction::Ignore),
    }
}

/// The next state of the key offer and what the command does next (see
/// [`offer_transition`]).
pub fn offer_step(o: &KeyOffer<String>, s: OfferState, e: OfferEvent<String>) -> (r: (OfferState, OfferAction<String>))
    ensures
        (r.0, r.1@) == offer_transition(o@, s, e@),
{
    match s {
        OfferState::Waiting => match e {
            OfferEvent::Pressed { user, custom_id } => {
                if user != o.winner {
                    return (s, OfferAction::KeepWaiting);
                }
                match key_answer(custom_id.as_str(), o.interaction_id) {
                    Some(KeyAnswer::Redeem) => (OfferState::Done, OfferAction::Redeem {
                        message: redeemed_key_message(o.key.as_str()),
                    }),
                    Some(KeyAnswer::Decline) => (OfferState::Done, OfferAction::Decline {
                        message: str_to_string("Alright, we'll keep it for someone else. Congrats again!"),
                    }),
                    None => (s, OfferAction::KeepWaiting),
                }
            },
            OfferEvent::TimedOut => (OfferState::Done, OfferAction::Expire),
        },
        OfferState::Done => (s, OfferAction::Ignore),
    }
}

/// The states reached and the actions taken by the offer from `s` through
/// `events`.
pub open spec fn offer_run(o: KeyOffer<Seq<char>>, s: OfferState, events: Seq<OfferEvent<Seq<char>>>) -> (
    OfferState,
    Seq<OfferAction<Seq<char>>>,
)
    decreases events.len(),
{
    if events.len() == 0 {
        (s, Seq::empty())
    } else {
        let step = offer_transition(o, s, events[0]);
        let rest = offer_run(o, step.0, events.drop_first());
        (rest.0, seq![step.1] + rest.1)
    }
}

/// The action hands over the key or returns it.
pub open spec fn settles(a: OfferAction<Seq<char>>) -> bool {
    a is Redeem || a is Decline || a is Expire
}

/// The winner's press of the redeem button.
pub open spec fn redeem_press(o: KeyOffer<Seq<char>>) -> OfferEvent<Seq<char>> {
    OfferEvent::Pressed { user: o.winner, custom_id: button_id(o.interaction_id, "redeem"@) }
}

/// In a run, whatever was settled is settled once, and the key is handed over
/// only at the winner's press of the redeem button.
pub open spec fn offer_run_ok(o: KeyOffer<Seq<char>>, s: OfferState, events: Seq<OfferEvent<Seq<char>>>) -> bool {
    let acts = offer_run(o, s, events).1;
    &&& acts.len() == events.len()
    &&& forall|i: int, j: int| 0 <= i < j < acts.len() && settles(#[trigger] acts[i]) ==> !settles(#[trigger] acts[j])
    &&& forall|i: int| 0 <= i < acts.len() && (#[trigger] acts[i] is Redeem) ==> events[i] == redeem_press(o)
}

proof fn lemma_offer_run(o: KeyOffer<Seq<char>>, s: OfferState, events: Seq<OfferEvent<Seq<char>>>)
    ensures
        offer_run_ok(o, s, events),
        s is Done ==> forall|i: int| 0 <= i < events.len() ==> !settles(#[trigger] offer_run(o, s, events).1[i]),
    decreases events.len(),
{
    if events.len() > 0 {
        let step = offer_transition(o, s, events[0]);
        let tail = events.drop_first();
        lemma_offer_run(o, step.0, tail);
        let acts = offer_run(o, s, events).1;
        let rest = offer_run(o, step.0, tail).1;
        assert(acts == seq![step.1] + rest);
        assert forall|i: int| 0 < i < acts.len() implies #[trigger] acts[i] == rest[i - 1] && events[i] == tail[i - 1] by {}
        assert forall|i: int, j: int| 0 <= i < j < acts.len() && settles(#[trigger] acts[i]) implies !settles(#[trigger] acts[j]) by {
            if i == 0 {
                assert(step.0 is Done);
                assert(acts[j] == rest[j - 1]);
            } else {
                assert(acts[i] == rest[i - 1]);
                assert(acts[j] == rest[j - 1]);
            }
        }
        if s is Done {
            assert forall|i: int| 0 <= i < acts.len() implies !settles(#[trigger] acts[i]) by {
                if i > 0 {
                    assert(acts[i] == rest[i - 1]);
                }
            }
        }
    }
}

/// The run has one action per event.
/// Whatever happens while a key is offered, it is settled (handed over,
/// returned or expired) at most once, and it is handed over only at a press
/// of the redeem button by the winner.
pub proof fn lemma_offer_settles_once(o: KeyOffer<Seq<char>>, events: Seq<OfferEvent<Seq<char>>>)
    ensures
        offer_run_ok(o, OfferState::Waiting, events),
{
    lemma_offer_run(o, OfferState::Waiting, events);
}

} // verus!

verus! {

/// The requirements of a winner search, as given (defaults apply to what is
/// not given).
#[derive(Debug, Clone, Copy, PartialEq, Eq, Structural)]
pub struct SearchRules {
    pub allow_multiple_keys: Option<bool>,
    pub minimum_minutes: Option<i64>,
    pub minimum_count: Option<u64>,
}

/// A candidate tracked enough (see [`meets_requirements`]).
pub open spec fn qualifies(rules: SearchRules, minutes: i64, count: u64) -> bool {
    minutes >= match rules.minimum_minutes {
        Some(m) => m,
        None => 30,
    } && count >= match rules.minimum_count {
        Some(c) => c,
        None => 8,
    }
}

/// Where the search for a winner stands.
#[derive(Debug, Clone, Copy, PartialEq, Eq, Structural)]
pub enum SearchState {
    /// Waiting for the next candidate.
    Next,
    /// Waiting for the guild member of this candidate.
    Member(u64),
    /// Waiting to learn whether this candidate already received a key.
    Recipient(u64),
    /// Waiting for this candidate's minutes and sessions in the period.
    Totals(u64),
    /// Waiting for a key to be reserved for this candidate, who tracked these
    /// minutes.
    Reserving(u64, i64),
    /// The search is over.
    Done,
}

/// What happened since the last step.
#[derive(Debug, PartialEq, Eq)]
pub enum SearchEvent {
    /// The next candidate in the database's random order: `None` when there
    /// are no more, `Some(None)` for a row that could not be read.
    Candidate(Option<Option<u64>>),
    /// The roles of the candidate as a guild member, `None` when they are not one.
    Member(Option<Vec<u64>>),
    /// Whether the candidate already received a key.
    RecipientChecked(bool),
    /// The candidate's minutes and sessions in the period.
    Totals { minutes: i64, count: u64 },
    /// Whether a key could be reserved.
    Reserved(bool),
}

/// The replies that end a search without a winner.
#[derive(Debug, Clone, Copy, PartialEq, Eq, Structural)]
pub enum SearchReply {
    /// No candidate met the requirements (a private reply).
    NoWinner,
    /// No unused key was left to reserve.
    NoUnusedKeys,
}

/// What the command does next.
#[derive(Debug, Clone, Copy, PartialEq, Eq, Structural)]
pub enum SearchAction {
    FetchNext,
    FetchMember(u64),
    CheckRecipient(u64),
    FetchTotals(u64),
    ReserveKey(u64),
    /// Commit the reservation and offer the key to this winner, who tracked
    /// these minutes.
    Finalize { winner: u64, minutes: i64 },
    Reply(SearchReply),
    Ignore,
}

/// The text of a reply that ends a search.
pub open spec fn search_reply_text(r: SearchReply) -> Seq<char> {
    match r {
        SearchReply::NoWinner => "No winner found."@,
        SearchReply::NoUnusedKeys => "<:mminfo:1279517292455264359> No unused keys found. Please add one and try again."@,
    }
}

impl SearchReply {
    /// The text of this reply (see [`search_reply_text`]).
    pub fn message(&self) -> (s: &'static str)
        ensures
            s@ == search_reply_text(*self),
    {
        match self {
            SearchReply::NoWinner => "No winner found.",
            SearchReply::NoUnusedKeys => "<:mminfo:1279517292455264359> No unused keys found. Please add one and try again.",
        }
    }
}

/// One step of the search for a winner. Candidates are taken in the
/// database's random order, and the first one that is a guild member with the
/// monthly challenger role, has not received a key (unless several keys are
/// allowed) and tracked enough in the period is the winner, once a key is
/// reserved for them. When the candidates run out, no winner was found.
pub open spec fn search_transition(rules: SearchRules, s: SearchState, e: SearchEvent) -> (SearchState, SearchAction) {
    match (s, e) {
        (SearchState::Next, SearchEvent::Candidate(c)) => match c {
            None => (SearchState::Done, SearchAction::Reply(SearchReply::NoWinner)),
            Some(None) => (SearchState::Next, SearchAction::FetchNext),
            Some(Some(u)) => (SearchState::Member(u), SearchAction::FetchMember(u)),
        },
        (SearchState::Member(u), SearchEvent::Member(m)) => match m {
            None => (SearchState::Next, SearchAction::FetchNext),
            Some(roles) => if !roles@.contains(796821826369617970u64) {
                (SearchState::Next, SearchAction::FetchNext)
            } else if rules.allow_multiple_keys != Some(true) {
                (SearchState::Recipient(u), SearchAction::CheckRecipient(u))
            } else {
                (SearchState::Totals(u), SearchAction::FetchTotals(u))
            },
        },
        (SearchState::Recipient(u), SearchEvent::RecipientChecked(received)) => if received {
            (SearchState::Next, SearchAction::FetchNext)
        } else {
            (SearchState::Totals(u), SearchAction::FetchTotals(u))
        },
        (SearchState::Totals(u), SearchEvent::Totals { minutes, count }) => if qualifies(rules, minutes, count) {
            (SearchState::Reserving(u, minutes), SearchAction::ReserveKey(u))
        } else {
            (SearchState::Next, SearchAction::FetchNext)
        },
        (SearchState::Reserving(u, m), SearchEvent::Reserved(ok)) => if ok {
            (SearchState::Done, SearchAction::Finalize { winner: u, minutes: m })
        } else {
            (SearchState::Done, SearchAction::Reply(SearchReply::NoUnusedKeys))
        },
        _ => (s, SearchAction::Ignore),
    }
}

/// The next state of the search and what the command does next (see
/// [`search_transition`]).
pub fn search_step(rules: SearchRules, s: SearchState, e: SearchEvent) -> (r: (SearchState, SearchAction))
    ensures
        r == search_transition(rules, s, e),
{
    match (s, e) {
        (SearchState::Next, SearchEvent::Candidate(c)) => match c {
            None => (SearchState::Done, SearchAction::Reply(SearchReply::NoWinner)),
            Some(None) => (SearchState::Next, SearchAction::FetchNext),
            Some(Some(u)) => (SearchState::Member(u), SearchAction::FetchMember(u)),
        },
        (SearchState::Member(u), SearchEvent::Member(m)) => match m {
            None => (SearchState::Next, SearchAction::FetchNext),
            Some(roles) => if !crate::common::has_role(Some(&roles), crate::config::roles().meditation_challenger) {
                (SearchState::Next, SearchAction::FetchNext)
            } else if skips_previous_recipients(rules.allow_multiple_keys) {
                (SearchState::Recipient(u), SearchAction::CheckRecipient(u))
            } else {
                (SearchState::Totals(u), SearchAction::FetchTotals(u))
            },
        },
        (SearchState::Recipient(u), SearchEvent::RecipientChecked(received)) => if received {
            (SearchState::Next, SearchAction::FetchNext)
        } else {
            (SearchState::Totals(u), SearchAction::FetchTotals(u))
        },
        (SearchState::Totals(u), SearchEvent::Totals { minutes, count }) => if meets_requirements(
            minutes,
            count,
            rules.minimum_minutes,
            rules.minimum_count,
        ) {
            (SearchState::Reserving(u, minutes), SearchAction::ReserveKey(u))
        } else {
            (SearchState::Next, SearchAction::FetchNext)
        },
        (SearchState::Reserving(u, m), SearchEvent::Reserved(ok)) => if ok {
            (SearchState::Done, SearchAction::Finalize { winner: u, minutes: m })
        } else {
            (SearchState::Done, SearchAction::Reply(SearchReply::NoUnusedKeys))
        },
        _ => (s, SearchAction::Ignore),
    }
}

/// The states reached and the actions taken by the search from `s` through
/// `events`.
pub open spec fn search_run(rules: SearchRules, s: SearchState, events: Seq<SearchEvent>) -> (SearchState, Seq<SearchAction>)
    decreases events.len(),
{
    if events.len() == 0 {
        (s, Seq::empty())
    } else {
        let step = search_transition(rules, s, events[0]);
        let rest = search_run(rules, step.0, events.drop_first());
        (rest.0, seq![step.1] + rest.1)
    }
}

/// Some event before `i` reported these minutes together with a count that
/// meets the requirements.
pub open spec fn qualified_before(rules: SearchRules, events: Seq<SearchEvent>, i: int, minutes: i64) -> bool {
    exists|j: int|
        0 <= j < i && (#[trigger] events[j] is Totals) && events[j]->minutes == minutes && qualifies(
            rules,
            minutes,
            events[j]->count,
        )
}

/// The state waits for a key for a candidate with these minutes.
pub open spec fn reserving_for(s: SearchState, minutes: i64) -> bool {
    s matches SearchState::Reserving(_, m) && m == minutes
}

proof fn lemma_search_run(rules: SearchRules, s: SearchState, events: Seq<SearchEvent>)
    ensures
        search_run(rules, s, events).1.len() == events.len(),
        forall|i: int| 0 <= i < events.len() && (#[trigger] search_run(rules, s, events).1[i] is Finalize)
            ==> (qualified_before(rules, events, i, search_run(rules, s, events).1[i]->minutes)
                || reserving_for(s, search_run(rules, s, events).1[i]->minutes)),
    decreases events.len(),
{
    if events.len() > 0 {
        let step = search_transition(rules, s, events[0]);
        let tail = events.drop_first();
        lemma_search_run(rules, step.0, tail);
        let acts = search_run(rules, s, events).1;
        let rest = search_run(rules, step.0, tail).1;
        assert(acts == seq![step.1] + rest);
        assert forall|i: int| 0 <= i < events.len() && (#[trigger] acts[i] is Finalize) implies (
            qualified_before(rules, events, i, acts[i]->minutes) || reserving_for(s, acts[i]->minutes)) by {
            if i > 0 {
                assert(acts[i] == rest[i - 1]);
                let m = rest[i - 1]->minutes;
                if qualified_before(rules, tail, i - 1, m) {
                    let j = choose|j: int|
                        0 <= j < i - 1 && (#[trigger] tail[j] is Totals) && tail[j]->minutes == m && qualifies(
                            rules,
                            m,
                            tail[j]->count,
                        );
                    assert(events[j + 1] == tail[j]);
                    assert(qualified_before(rules, events, i, m));
                } else {
                    assert(reserving_for(step.0, m));
                    if !reserving_for(s, m) {
                        assert(events[0] is Totals);
                        assert(qualified_before(rules, events, i, m));
                    }
                }
            }
        }
    }
}

/// A candidate who already received a key is passed over unless several
/// keys are allowed: the search moves on to the next candidate. A search only
/// ever comes to weigh a candidate's minutes and sessions after learning that
/// the candidate received no key, or when several keys are allowed; and it
/// only asks whether a candidate received a key for a guild member with the
/// monthly challenger role.
pub proof fn lemma_previous_recipients_skipped(rules: SearchRules, s: SearchState, e: SearchEvent, u: u64)
    ensures
        rules.allow_multiple_keys != Some(true) ==> search_transition(rules, SearchState::Recipient(u), SearchEvent::RecipientChecked(true))
            == (SearchState::Next, SearchAction::FetchNext),
        search_transition(rules, s, e).0 == SearchState::Totals(u) && s != SearchState::Totals(u) ==> (
            (s == SearchState::Recipient(u) && e == SearchEvent::RecipientChecked(false))
            || (rules.allow_multiple_keys == Some(true) && s == SearchState::Member(u))),
        search_transition(rules, s, e).0 == SearchState::Recipient(u) && s != SearchState::Recipient(u) ==> (
            s == SearchState::Member(u) && (e matches SearchEvent::Member(Some(roles)) && roles@.contains(
                796821826369617970u64,
            )) && rules.allow_multiple_keys != Some(true)),
        search_transition(rules, s, e).1 matches SearchAction::Finalize { winner, .. } ==> (s matches SearchState::Reserving(w, _)
            && w == winner),
        search_transition(rules, s, e).0 matches SearchState::Reserving(w, _) ==> (s == SearchState::Totals(w)
            || s == search_transition(rules, s, e).0),
{
}

proof fn lemma_search_run_no_recipient(rules: SearchRules, s: SearchState, events: Seq<SearchEvent>, u: u64)
    requires
        rules.allow_multiple_keys != Some(true),
        !(s == SearchState::Totals(u) || (s matches SearchState::Reserving(w, _) && w == u)),
        forall|j: int| 0 <= j < events.len() ==> !(#[trigger] events[j] == SearchEvent::RecipientChecked(false)),
    ensures
        forall|i: int| 0 <= i < events.len() ==> !(#[trigger] search_run(rules, s, events).1[i] matches SearchAction::Finalize {
            winner,
            ..
        } && winner == u),
    decreases events.len(),
{
    if events.len() > 0 {
        let step = search_transition(rules, s, events[0]);
        let tail = events.drop_first();
        lemma_previous_recipients_skipped(rules, s, events[0], u);
        assert forall|j: int| 0 <= j < tail.len() implies !(#[trigger] tail[j] == SearchEvent::RecipientChecked(false)) by {
            assert(tail[j] == events[j + 1]);
        }
        lemma_search_run_no_recipient(rules, step.0, tail, u);
        lemma_search_run(rules, step.0, tail);
        let acts = search_run(rules, s, events).1;
        let rest = search_run(rules, step.0, tail).1;
        assert(acts == seq![step.1] + rest);
        assert forall|i: int| 0 <= i < events.len() implies !(#[trigger] acts[i] matches SearchAction::Finalize {
            winner,
            ..
        } && winner == u) by {
            if i > 0 {
                assert(acts[i] == rest[i - 1]);
            }
        }
    }
}

/// When several keys are not allowed, no one whose check reported a key
/// already received is ever made the winner: in a search in which every
/// recipient check reports a key already received (`RecipientChecked(true)`),
/// nobody wins.
pub proof fn lemma_no_second_key(rules: SearchRules, events: Seq<SearchEvent>, u: u64)
    requires
        rules.allow_multiple_keys != Some(true),
        forall|j: int| 0 <= j < events.len() ==> !(#[trigger] events[j] == SearchEvent::RecipientChecked(false)),
    ensures
        forall|i: int| 0 <= i < events.len() ==> !(#[trigger] search_run(rules, SearchState::Next, events).1[i] is Finalize),
{
    lemma_search_run(rules, SearchState::Next, events);
    assert forall|i: int| 0 <= i < events.len() implies !(#[trigger] search_run(rules, SearchState::Next, events).1[i] is Finalize) by {
        let a = search_run(rules, SearchState::Next, events).1[i];
        if a is Finalize {
            lemma_search_run_no_recipient(rules, SearchState::Next, events, a->winner);
        }
    }
}

/// A winner is only ever chosen among candidates who tracked enough: in every
/// search, the minutes of the winner are those reported for a candidate whose
/// minutes and sessions met the requirements; and the search ends with
/// `No winner found.` exactly when the candidates run out while one is awaited.
pub proof fn lemma_winner_qualifies(rules: SearchRules, events: Seq<SearchEvent>)
    ensures
        forall|i: int| 0 <= i < events.len() && (#[trigger] search_run(rules, SearchState::Next, events).1[i] is Finalize)
            ==> qualified_before(rules, events, i, search_run(rules, SearchState::Next, events).1[i]->minutes),
        search_transition(rules, SearchState::Next, SearchEvent::Candidate(None)) == (
            SearchState::Done,
            SearchAction::Reply(SearchReply::NoWinner),
        ),
{
    lemma_search_run(rules, SearchState::Next, events);
}

} // verus!

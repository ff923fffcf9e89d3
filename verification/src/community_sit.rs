//! Community sits: which scheduled event a helper may start or end, the
//! confirmation shown first, the answer to it and the log entry.
use vstd::prelude::*;
use crate::datetime::Instant;
use crate::pagination::PageEmbed;
use crate::text::{nat_decimal, push_i64, push_str, push_u64, str_to_string};

verus! {

/// The state of a scheduled event.
#[derive(Debug, Clone, Copy, PartialEq, Eq, Structural)]
pub enum EventStatus {
    Scheduled,
    Active,
    Completed,
    Canceled,
}

/// A scheduled event of the guild, as far as sits are concerned.
pub struct SitEvent {
    pub id: u64,
    pub name: String,
    pub description: Option<String>,
    pub status: EventStatus,
    pub start_time: Instant,
    pub image: Option<String>,
    pub channel_id: Option<u64>,
}

/// Whether a name ends with `suffix`.
pub open spec fn ends_with(s: Seq<char>, suffix: Seq<char>) -> bool {
    suffix.len() <= s.len() && s.subrange(s.len() - suffix.len(), s.len() as int) == suffix
}

/// Nanoseconds from `a` to `b`.
pub open spec fn nanos_between(a: Instant, b: Instant) -> int {
    (b.secs - a.secs) * 1_000_000_000 + (b.nanos - a.nanos)
}

/// A sit that may be started: a scheduled event whose name ends with
/// `Silent Sit` and whose start is less than fifteen minutes away from `now`,
/// before or after.
pub open spec fn startable(e: SitEvent, now: Instant) -> bool {
    &&& ends_with(e.name@, "Silent Sit"@)
    &&& e.status == EventStatus::Scheduled
    &&& -900_000_000_000 < nanos_between(now, e.start_time) < 900_000_000_000
}

/// A sit that may be ended: an active event whose name ends with `Silent Sit`.
pub open spec fn endable(e: SitEvent) -> bool {
    ends_with(e.name@, "Silent Sit"@) && e.status == EventStatus::Active
}

/// Whether `name` ends with `suffix` (see [`ends_with`]).
pub(crate) fn name_ends_with(name: &str, suffix: &str) -> (b: bool)
    ensures
        b == ends_with(name@, suffix@),
{
    let chars = crate::parse::chars_of(name);
    let tail = crate::parse::chars_of(suffix);
    if tail.len() > chars.len() {
        return false;
    }
    let offset = chars.len() - tail.len();
    let mut i: usize = 0;
    while i < tail.len()
        invariant
            i <= tail@.len(),
            offset + tail.len() == chars.len(),
            chars@ == name@,
            tail@ == suffix@,
            forall|k: int| 0 <= k < i ==> chars@[offset + k] == tail@[k],
        decreases tail.len() - i,
    {
        if chars[offset + i] != tail[i] {
            assert(chars@.subrange(offset as int, chars@.len() as int)[i as int] != tail@[i as int]);
            return false;
        }
        i += 1;
    }
    assert(chars@.subrange(offset as int, chars@.len() as int) =~= tail@);
    true
}

fn is_silent_sit(name: &str) -> (b: bool)
    ensures
        b == ends_with(name@, "Silent Sit"@),
{
    name_ends_with(name, "Silent Sit")
}

impl SitEvent {
    /// Whether this sit may be started at `now`.
    pub fn is_startable(&self, now: Instant) -> (b: bool)
        ensures
            b == startable(*self, now),
    {
        let d: i128 = (self.start_time.secs as i128 - now.secs as i128) * 1_000_000_000
            + (self.start_time.nanos as i128 - now.nanos as i128);
        is_silent_sit(self.name.as_str()) && self.status == EventStatus::Scheduled && -900_000_000_000
            < d && d < 900_000_000_000
    }

    /// Whether this sit may be ended.
    pub fn is_endable(&self) -> (b: bool)
        ensures
            b == endable(*self),
    {
        is_silent_sit(self.name.as_str()) && self.status == EventStatus::Active
    }
}

/// The position of the first sit that may be started at `now`, if any.
pub fn first_startable(events: &Vec<SitEvent>, now: Instant) -> (r: Option<usize>)
    ensures
        match r {
            Some(i) => i < events@.len() && startable(events@[i as int], now) && forall|j: int|
                0 <= j < i ==> !startable(#[trigger] events@[j], now),
            None => forall|j: int| 0 <= j < events@.len() ==> !startable(#[trigger] events@[j], now),
        },
{
    first_startable_as(HostedEvent::CommunitySit, events, now)
}

/// The position of the first sit that may be ended, if any.
pub fn first_endable(events: &Vec<SitEvent>) -> (r: Option<usize>)
    ensures
        match r {
            Some(i) => i < events@.len() && endable(events@[i as int]) && forall|j: int|
                0 <= j < i ==> !endable(#[trigger] events@[j]),
            None => forall|j: int| 0 <= j < events@.len() ==> !endable(#[trigger] events@[j]),
        },
{
    first_endable_as(HostedEvent::CommunitySit, events)
}

/// The description or nothing.
pub open spec fn description_text(d: Option<String>) -> Seq<char> {
    match d {
        Some(s) => s@,
        None => Seq::empty(),
    }
}

/// A Discord timestamp shown relative to now.
pub open spec fn relative_time(t: Instant) -> Seq<char> {
    "<t:"@ + crate::text::int_decimal(t.secs as int) + ":R>"@
}

/// The heading line of the confirmation for starting or ending a sit.
pub open spec fn confirmation_lead(starting: bool) -> Seq<char> {
    if starting {
        "Starting Event:\n## "@
    } else {
        "Ending Event:\n## "@
    }
}

/// The words before the start time in the confirmation.
pub open spec fn confirmation_when(starting: bool) -> Seq<char> {
    if starting {
        "\n-# Scheduled to begin "@
    } else {
        "\n-# Event began "@
    }
}

/// The confirmation shown before starting (`starting`) or ending a sit.
pub open spec fn confirmation_text(e: SitEvent, starting: bool) -> Seq<char> {
    confirmation_lead(starting) + e.name@ + "\n"@ + description_text(e.description)
        + confirmation_when(starting) + relative_time(e.start_time) + "."@
}

/// The cover image of an event, when it has one.
pub open spec fn event_image(e: SitEvent) -> Option<Seq<char>> {
    match e.image {
        Some(hash) => Some(
            "https://cdn.discordapp.com/guild-events/"@ + nat_decimal(e.id as nat) + "/"@ + hash@
                + "?size=2048"@,
        ),
        None => None,
    }
}

/// The confirmation shown before starting or ending a sit: its text and image.
pub fn sit_confirmation(e: &SitEvent, starting: bool) -> (r: (String, Option<String>))
    ensures
        r.0@ == confirmation_text(*e, starting),
        match event_image(*e) {
            Some(url) => r.1 matches Some(u) && u@ == url,
            None => r.1 is None,
        },
{
    let (lead, when): (&str, &str) = if starting {
        ("Starting Event:\n## ", "\n-# Scheduled to begin ")
    } else {
        ("Ending Event:\n## ", "\n-# Event began ")
    };
    let mut s = String::new();
    push_str(&mut s, lead);
    push_str(&mut s, e.name.as_str());
    push_str(&mut s, "\n");
    let ghost head = s@;
    match &e.description {
        Some(d) => push_str(&mut s, d.as_str()),
        None => {},
    }
    assert(s@ =~= head + description_text(e.description));
    push_str(&mut s, when);
    push_str(&mut s, "<t:");
    push_i64(&mut s, e.start_time.secs);
    push_str(&mut s, ":R>");
    push_str(&mut s, ".");
    assert(s@ =~= confirmation_text(*e, starting));
    let image = match &e.image {
        Some(hash) => {
            let mut u = String::new();
            push_str(&mut u, "https://cdn.discordapp.com/guild-events/");
            push_u64(&mut u, e.id);
            push_str(&mut u, "/");
            push_str(&mut u, hash.as_str());
            push_str(&mut u, "?size=2048");
            Some(u)
        },
        None => None,
    };
    (s, image)
}

/// The log entry for a sit started (`starting`) or ended by the helper
/// `helper_name` (`helper_id`).
pub fn sit_log(e: &SitEvent, starting: bool, helper_name: &str, helper_id: u64) -> (l: PageEmbed)
    ensures
        l.title@ == (if starting {
            "Event Started"@
        } else {
            "Event Ended"@
        }),
        l.description@ == "**Event**: "@ + e.name@ + "\n**Channel:** "@ + match e.channel_id {
            Some(c) => "<#"@ + nat_decimal(c as nat) + ">"@,
            None => "N/A"@,
        },
        l.fields@.len() == 0,
        l.footer matches Some(f) && f@ == (if starting {
            "Started by "@
        } else {
            "Ended by "@
        }) + helper_name@ + " ("@ + nat_decimal(helper_id as nat) + ")"@,
{
    let mut description = String::new();
    push_str(&mut description, "**Event**: ");
    push_str(&mut description, e.name.as_str());
    push_str(&mut description, "\n**Channel:** ");
    match e.channel_id {
        Some(c) => {
            push_str(&mut description, "<#");
            push_u64(&mut description, c);
            push_str(&mut description, ">");
        },
        None => push_str(&mut description, "N/A"),
    }
    let mut footer = String::new();
    if starting {
        push_str(&mut footer, "Started by ");
    } else {
        push_str(&mut footer, "Ended by ");
    }
    push_str(&mut footer, helper_name);
    push_str(&mut footer, " (");
    push_u64(&mut footer, helper_id);
    push_str(&mut footer, ")");
    PageEmbed {
        title: if starting {
            str_to_string("Event Started")
        } else {
            str_to_string("Event Ended")
        },
        description,
        fields: Vec::new(),
        footer: Some(footer),
    }
}

} // verus!

verus! {

/// The two kinds of hosted events.
#[derive(Debug, Clone, Copy, PartialEq, Eq, Structural)]
pub enum HostedEvent {
    /// A community sit, named `... Silent Sit`, run by a sit helper.
    CommunitySit,
    /// A community book club meeting, named `... Mahabharata`, run by a host.
    BookClub,
}

/// A book club meeting that may be started: a scheduled event whose name ends
/// with `Mahabharata` and whose start is less than a day away from `now`,
/// before or after.
pub open spec fn book_club_startable(e: SitEvent, now: Instant) -> bool {
    &&& ends_with(e.name@, "Mahabharata"@)
    &&& e.status == EventStatus::Scheduled
    &&& -86_400_000_000_000 < nanos_between(now, e.start_time) < 86_400_000_000_000
}

/// A book club meeting that may be ended: an active event whose name ends
/// with `Mahabharata`.
pub open spec fn book_club_endable(e: SitEvent) -> bool {
    ends_with(e.name@, "Mahabharata"@) && e.status == EventStatus::Active
}

/// Whether an event of `kind` may be started at `now`.
pub open spec fn startable_as(kind: HostedEvent, e: SitEvent, now: Instant) -> bool {
    match kind {
        HostedEvent::CommunitySit => startable(e, now),
        HostedEvent::BookClub => book_club_startable(e, now),
    }
}

/// Whether an event of `kind` may be ended.
pub open spec fn endable_as(kind: HostedEvent, e: SitEvent) -> bool {
    match kind {
        HostedEvent::CommunitySit => endable(e),
        HostedEvent::BookClub => book_club_endable(e),
    }
}

fn is_startable_as(kind: HostedEvent, e: &SitEvent, now: Instant) -> (b: bool)
    ensures
        b == startable_as(kind, *e, now),
{
    match kind {
        HostedEvent::CommunitySit => e.is_startable(now),
        HostedEvent::BookClub => {
            let d: i128 = (e.start_time.secs as i128 - now.secs as i128) * 1_000_000_000
                + (e.start_time.nanos as i128 - now.nanos as i128);
            name_ends_with(e.name.as_str(), "Mahabharata") && e.status == EventStatus::Scheduled
                && -86_400_000_000_000 < d && d < 86_400_000_000_000
        },
    }
}

fn is_endable_as(kind: HostedEvent, e: &SitEvent) -> (b: bool)
    ensures
        b == endable_as(kind, *e),
{
    match kind {
        HostedEvent::CommunitySit => e.is_endable(),
        HostedEvent::BookClub => name_ends_with(e.name.as_str(), "Mahabharata") && e.status == EventStatus::Active,
    }
}

/// The position of the first event of `kind` that may be started at `now`,
/// if any.
pub fn first_startable_as(kind: HostedEvent, events: &Vec<SitEvent>, now: Instant) -> (r: Option<usize>)
    ensures
        match r {
            Some(i) => i < events@.len() && startable_as(kind, events@[i as int], now) && forall|j: int|
                0 <= j < i ==> !startable_as(kind, #[trigger] events@[j], now),
            None => forall|j: int| 0 <= j < events@.len() ==> !startable_as(kind, #[trigger] events@[j], now),
        },
{
    let mut i: usize = 0;
    while i < events.len()
        invariant
            i <= events@.len(),
            forall|j: int| 0 <= j < i ==> !startable_as(kind, #[trigger] events@[j], now),
        decreases events.len() - i,
    {
        if is_startable_as(kind, &events[i], now) {
            return Some(i);
        }
        i += 1;
    }
    None
}

/// The position of the first event of `kind` that may be ended, if any.
pub fn first_endable_as(kind: HostedEvent, events: &Vec<SitEvent>) -> (r: Option<usize>)
    ensures
        match r {
            Some(i) => i < events@.len() && endable_as(kind, events@[i as int]) && forall|j: int|
                0 <= j < i ==> !endable_as(kind, #[trigger] events@[j]),
            None => forall|j: int| 0 <= j < events@.len() ==> !endable_as(kind, #[trigger] events@[j]),
        },
{
    let mut i: usize = 0;
    while i < events.len()
        invariant
            i <= events@.len(),
            forall|j: int| 0 <= j < i ==> !endable_as(kind, #[trigger] events@[j]),
        decreases events.len() - i,
    {
        if is_endable_as(kind, &events[i]) {
            return Some(i);
        }
        i += 1;
    }
    None
}

/// The answer to the confirmation of starting (`starting`) or ending an event
/// of `kind`, once `confirmed` or cancelled.
pub fn event_answer(kind: HostedEvent, starting: bool, confirmed: bool) -> (s: String)
    ensures
        s@ == match (kind, starting, confirmed) {
            (HostedEvent::CommunitySit, true, true) => "<:mminfo:1279517292455264359> Event started. Enjoy your sit!"@,
            (HostedEvent::CommunitySit, false, true) => "<:mminfo:1279517292455264359> Event ended. Thank you for your assistance!"@,
            (HostedEvent::CommunitySit, _, false) => "Cancelled."@,
            (HostedEvent::BookClub, true, true) => "<:mminfo:1279517292455264359> Event started. Enjoy!"@,
            (HostedEvent::BookClub, false, true) => "<:mminfo:1279517292455264359> Event ended. Thank you for hosting!"@,
            (HostedEvent::BookClub, _, false) => "<:mmx:1279517275749089290> Cancelled."@,
        },
{
    let t = match kind {
        HostedEvent::CommunitySit => if !confirmed {
            "Cancelled."
        } else if starting {
            "<:mminfo:1279517292455264359> Event started. Enjoy your sit!"
        } else {
            "<:mminfo:1279517292455264359> Event ended. Thank you for your assistance!"
        },
        HostedEvent::BookClub => if !confirmed {
            "<:mmx:1279517275749089290> Cancelled."
        } else if starting {
            "<:mminfo:1279517292455264359> Event started. Enjoy!"
        } else {
            "<:mminfo:1279517292455264359> Event ended. Thank you for hosting!"
        },
    };
    str_to_string(t)
}

/// The note when no event of `kind` may be started (`starting`) or ended.
pub fn no_eligible_event(kind: HostedEvent, starting: bool) -> (s: String)
    ensures
        s@ == match (kind, starting) {
            (HostedEvent::CommunitySit, true) => "<:mminfo:1279517292455264359> No eligible community sit event found. Please try again within 15 minutes of starting time."@,
            (HostedEvent::CommunitySit, false) => "<:mminfo:1279517292455264359> No active community sit event found."@,
            (HostedEvent::BookClub, true) => "<:mminfo:1279517292455264359> No eligible community book club event found. Please try again on the day of the event."@,
            (HostedEvent::BookClub, false) => "<:mminfo:1279517292455264359> No active community book club event found."@,
        },
{
    let t = match kind {
        HostedEvent::CommunitySit => if starting {
            "<:mminfo:1279517292455264359> No eligible community sit event found. Please try again within 15 minutes of starting time."
        } else {
            "<:mminfo:1279517292455264359> No active community sit event found."
        },
        HostedEvent::BookClub => if starting {
            "<:mminfo:1279517292455264359> No eligible community book club event found. Please try again on the day of the event."
        } else {
            "<:mminfo:1279517292455264359> No active community book club event found."
        },
    };
    str_to_string(t)
}

/// Whether the member starting an event is missing from its voice channel:
/// never when the event has no channel or the guild is not cached; otherwise
/// when the member has no voice state, or is in another channel.
/// `voice_channel` is the member's voice state, if any, and its channel.
pub open spec fn absent_from_event(event_channel: Option<u64>, guild_cached: bool, voice_channel: Option<Option<u64>>) -> bool {
    match event_channel {
        None => false,
        Some(vc) => guild_cached && match voice_channel {
            None => true,
            Some(Some(c)) => c != vc,
            Some(None) => false,
        },
    }
}

/// The note asking the member to join the event's voice channel, when they
/// are missing from it (see [`absent_from_event`]).
pub fn not_present(event_channel: Option<u64>, guild_cached: bool, voice_channel: Option<Option<u64>>) -> (r: Option<String>)
    ensures
        absent_from_event(event_channel, guild_cached, voice_channel) ==> (r matches Some(t) && event_channel matches Some(vc)
            && t@ == "<:mminfo:1279517292455264359> Please join <#"@ + nat_decimal(vc as nat)
            + "> before starting the event. Events may end automatically if no one is present in the VC."@),
        !absent_from_event(event_channel, guild_cached, voice_channel) ==> r is None,
{
    let vc = match event_channel {
        None => return None,
        Some(vc) => vc,
    };
    let absent = guild_cached && match voice_channel {
        None => true,
        Some(Some(c)) => c != vc,
        Some(None) => false,
    };
    if absent {
        let mut t = String::new();
        push_str(&mut t, "<:mminfo:1279517292455264359> Please join <#");
        push_u64(&mut t, vc);
        push_str(&mut t, "> before starting the event. Events may end automatically if no one is present in the VC.");
        Some(t)
    } else {
        None
    }
}

} // verus!

verus! {

/// The answer shown after a press in the exchange that starts (`starting`)
/// or ends an event of `kind` (see [`event_answer`]).
pub open spec fn event_answer_text(kind: HostedEvent, starting: bool, confirmed: bool) -> Seq<char> {
    match (kind, starting, confirmed) {
        (HostedEvent::CommunitySit, true, true) => "<:mminfo:1279517292455264359> Event started. Enjoy your sit!"@,
        (HostedEvent::CommunitySit, false, true) => "<:mminfo:1279517292455264359> Event ended. Thank you for your assistance!"@,
        (HostedEvent::CommunitySit, _, false) => "Cancelled."@,
        (HostedEvent::BookClub, true, true) => "<:mminfo:1279517292455264359> Event started. Enjoy!"@,
        (HostedEvent::BookClub, false, true) => "<:mminfo:1279517292455264359> Event ended. Thank you for hosting!"@,
        (HostedEvent::BookClub, _, false) => "<:mmx:1279517275749089290> Cancelled."@,
    }
}

/// The exchange that starts (`starting`) or ends an event of `kind`, asked by
/// the interaction `interaction_id`. Confirming answers that the event
/// started or ended and then changes the event (to active when starting, to
/// completed when ending) and logs it (see [`sit_log`]); cancelling answers
/// `Cancelled.` and waits on; a minute without a press changes nothing (see
/// [`crate::dialog::dialog_transition`]).
pub fn event_dialog(kind: HostedEvent, starting: bool, interaction_id: u64) -> (d: crate::dialog::ConfirmDialog<String>)
    ensures
        d@.confirm_id == crate::common::button_id(interaction_id, "confirm"@),
        d@.cancel_id == crate::common::button_id(interaction_id, "cancel"@),
        d@.confirmed_text == event_answer_text(kind, starting, true),
        d@.cancelled_text == event_answer_text(kind, starting, false),
{
    crate::dialog::ConfirmDialog {
        confirm_id: crate::dialog::button_id_text(interaction_id, "confirm"),
        cancel_id: crate::dialog::button_id_text(interaction_id, "cancel"),
        confirmed_text: event_answer(kind, starting, true),
        cancelled_text: event_answer(kind, starting, false),
    }
}

} // verus!

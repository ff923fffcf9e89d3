//! Joining and leaving the meditation challenges, and what the challenge
//! statistics show.
use vstd::prelude::*;
use crate::config::roles;
use crate::glossary::{ascii_lower, to_ascii_lower};
use crate::parse::{chars_of, string_of};
use crate::time::{challenge_timeframe_name, ChallengeTimeframe};
use crate::rows::{push_user_mention, user_mention};
use crate::text::{int_decimal, push_i64, push_str, str_to_string};
use crate::tracking_profile::{Privacy, Status, TrackingProfile};

verus! {

/// The role of a challenge's participants.
pub open spec fn challenge_role_id(c: ChallengeTimeframe) -> u64 {
    match c {
        ChallengeTimeframe::Monthly => 796821826369617970u64,
        ChallengeTimeframe::YearRound => 516750476268666880u64,
    }
}

/// The role of a challenge's participants.
pub fn challenge_role(c: ChallengeTimeframe) -> (id: u64)
    ensures
        id == challenge_role_id(c),
{
    let r = roles();
    match c {
        ChallengeTimeframe::Monthly => r.meditation_challenger.0,
        ChallengeTimeframe::YearRound => r.meditation_challenger_365.0,
    }
}

/// The challenge a command is about: the monthly one unless another is chosen.
pub open spec fn chosen(c: Option<ChallengeTimeframe>) -> ChallengeTimeframe {
    match c {
        Some(t) => t,
        None => ChallengeTimeframe::Monthly,
    }
}

/// How a challenge is named in running text.
pub open spec fn challenge_phrase(c: ChallengeTimeframe) -> Seq<char> {
    match c {
        ChallengeTimeframe::Monthly => "monthly challenge"@,
        ChallengeTimeframe::YearRound => "365-day challenge"@,
    }
}

fn push_challenge_phrase(s: &mut String, c: ChallengeTimeframe)
    ensures
        final(s)@ == old(s)@ + challenge_phrase(c),
{
    match c {
        ChallengeTimeframe::Monthly => push_str(s, "monthly challenge"),
        ChallengeTimeframe::YearRound => push_str(s, "365-day challenge"),
    }
}

/// What joining or leaving a challenge comes to.
pub enum RoleChange {
    /// Nothing changes; this private note is the answer.
    Unchanged(String),
    /// This role is to be given (when joining) or taken (when leaving).
    Change(u64),
}

/// Joining a challenge: a member who has its role already is told so;
/// otherwise the role is given.
pub fn join_challenge(choice: Option<ChallengeTimeframe>, has_role: bool) -> (r: RoleChange)
    ensures
        has_role ==> (r matches RoleChange::Unchanged(t) && t@ == "You've already joined the "@
            + challenge_phrase(chosen(choice)) + ". Awesome!"@),
        !has_role ==> r == RoleChange::Change(challenge_role_id(chosen(choice))),
{
    let c = match choice {
        Some(t) => t,
        None => ChallengeTimeframe::Monthly,
    };
    if has_role {
        let mut t = String::new();
        push_str(&mut t, "You've already joined the ");
        push_challenge_phrase(&mut t, c);
        push_str(&mut t, ". Awesome!");
        RoleChange::Unchanged(t)
    } else {
        RoleChange::Change(challenge_role(c))
    }
}

/// Leaving a challenge: a member without its role is told how to join;
/// otherwise the role is taken.
pub fn leave_challenge(choice: Option<ChallengeTimeframe>, has_role: bool) -> (r: RoleChange)
    ensures
        !has_role ==> (r matches RoleChange::Unchanged(t) && t@ == "You're not currently participating in the "@
            + challenge_phrase(chosen(choice)) + ". If you want to join, use `/challenge join`."@),
        has_role ==> r == RoleChange::Change(challenge_role_id(chosen(choice))),
{
    let c = match choice {
        Some(t) => t,
        None => ChallengeTimeframe::Monthly,
    };
    if has_role {
        RoleChange::Change(challenge_role(c))
    } else {
        let mut t = String::new();
        push_str(&mut t, "You're not currently participating in the ");
        push_challenge_phrase(&mut t, c);
        push_str(&mut t, ". If you want to join, use `/challenge join`.");
        RoleChange::Unchanged(t)
    }
}

/// The private note when a challenge role could not be given or taken.
pub fn challenge_role_error() -> (s: String)
    ensures
        s@ == "<:mminfo:1279517292455264359> An error occurred while updating your roles. Please try again, or contact server staff for assistance."@,
{
    str_to_string(
        "<:mminfo:1279517292455264359> An error occurred while updating your roles. Please try again, or contact server staff for assistance.",
    )
}

/// The welcome after joining a challenge; `month_name` is the current month's
/// name, which the monthly challenge names.
pub fn join_welcome(choice: Option<ChallengeTimeframe>, member: u64, month_name: &str) -> (s: String)
    ensures
        s@ == match chosen(choice) {
            ChallengeTimeframe::Monthly => "Challenge accepted! You're awesome, "@ + user_mention(member)
                + "! Now commit to practicing consistently throughout the month of "@ + month_name@
                + " and `/add` your times in this channel. You can use <#534702592245235733> and <#465656096929873942> for extra accountability. Let's do this!"@,
            ChallengeTimeframe::YearRound => "Awesome, "@ + user_mention(member)
                + "! You have successfully joined the 365-day challenge <:pepeglow:1279541855150673991>"@,
        },
{
    let mut s = String::new();
    match choice {
        Some(ChallengeTimeframe::YearRound) => {
            push_str(&mut s, "Awesome, ");
            push_user_mention(&mut s, member);
            push_str(&mut s, "! You have successfully joined the 365-day challenge <:pepeglow:1279541855150673991>");
        },
        _ => {
            push_str(&mut s, "Challenge accepted! You're awesome, ");
            push_user_mention(&mut s, member);
            push_str(&mut s, "! Now commit to practicing consistently throughout the month of ");
            push_str(&mut s, month_name);
            push_str(
                &mut s,
                " and `/add` your times in this channel. You can use <#534702592245235733> and <#465656096929873942> for extra accountability. Let's do this!",
            );
        },
    }
    s
}

/// The note after leaving a challenge.
pub fn leave_farewell(choice: Option<ChallengeTimeframe>, member: u64) -> (s: String)
    ensures
        s@ == "You have successfully opted out of the "@ + challenge_phrase(chosen(choice)) + ", "@
            + user_mention(member) + "."@,
{
    let c = match choice {
        Some(t) => t,
        None => ChallengeTimeframe::Monthly,
    };
    let mut s = String::new();
    push_str(&mut s, "You have successfully opted out of the ");
    push_challenge_phrase(&mut s, c);
    push_str(&mut s, ", ");
    push_user_mention(&mut s, member);
    push_str(&mut s, ".");
    s
}

/// The private note for statistics of a challenge the member has not joined:
/// the challenge's name in lower case and the command to join.
pub fn not_in_challenge(c: ChallengeTimeframe) -> (s: String)
    ensures
        s@ == "<:mminfo:1279517292455264359> You're not currently participating in the "@
            + challenge_timeframe_name(c).map_values(|x: char| ascii_lower(x))
            + ". If you want to join, use </challenge join:1187466829547978904>."@,
{
    let name = chars_of(c.name());
    let mut lower: Vec<char> = Vec::new();
    let mut i: usize = 0;
    while i < name.len()
        invariant
            i <= name@.len(),
            name@ == challenge_timeframe_name(c),
            lower@ == name@.take(i as int).map_values(|x: char| ascii_lower(x)),
        decreases name.len() - i,
    {
        lower.push(to_ascii_lower(name[i]));
        assert(lower@ =~= name@.take(i as int + 1).map_values(|x: char| ascii_lower(x)));
        i += 1;
    }
    assert(name@.take(name@.len() as int) =~= name@);
    let mut s = String::new();
    push_str(&mut s, "<:mminfo:1279517292455264359> You're not currently participating in the ");
    let l = string_of(&lower);
    push_str(&mut s, l.as_str());
    push_str(&mut s, ". If you want to join, use </challenge join:1187466829547978904>.");
    s
}

/// The title of a challenge's statistics.
pub fn challenge_stats_title(c: ChallengeTimeframe) -> (s: &'static str)
    ensures
        s@ == match c {
            ChallengeTimeframe::Monthly => "Monthly Meditation Challenge Stats"@,
            ChallengeTimeframe::YearRound => "365-Day Meditation Challenge Stats"@,
        },
{
    match c {
        ChallengeTimeframe::Monthly => "Monthly Meditation Challenge Stats",
        ChallengeTimeframe::YearRound => "365-Day Meditation Challenge Stats",
    }
}

/// The footer of a challenge's statistics; `period` is the current month and
/// year for the monthly challenge, the current year for the other.
pub fn challenge_stats_footer(c: ChallengeTimeframe, period: &str) -> (s: String)
    ensures
        s@ == match c {
            ChallengeTimeframe::Monthly => "Stats for "@ + period@ + " Monthly Challenge"@,
            ChallengeTimeframe::YearRound => "Stats for 365-Day Challenge ("@ + period@ + ")"@,
        },
{
    let mut s = String::new();
    match c {
        ChallengeTimeframe::Monthly => {
            push_str(&mut s, "Stats for ");
            push_str(&mut s, period);
            push_str(&mut s, " Monthly Challenge");
        },
        ChallengeTimeframe::YearRound => {
            push_str(&mut s, "Stats for 365-Day Challenge (");
            push_str(&mut s, period);
            push_str(&mut s, ")");
        },
    }
    s
}

/// Streaks show in challenge statistics when they are enabled, and, when they
/// are private, only in a reply that is private too.
pub open spec fn challenge_streaks_shown(p: TrackingProfile) -> bool {
    p.streak.status == Status::Enabled && (p.streak.privacy == Privacy::Public || p.stats.privacy
        == Privacy::Private)
}

/// Whether streaks show in challenge statistics (see [`challenge_streaks_shown`]).
pub fn shows_challenge_streaks(p: &TrackingProfile) -> (b: bool)
    ensures
        b == challenge_streaks_shown(*p),
{
    p.streak.status == Status::Enabled && (p.streak.privacy == Privacy::Public || p.stats.privacy
        == Privacy::Private)
}

/// The streaks field of challenge statistics.
pub fn challenge_streak_field(current: i32, longest: i32) -> (s: String)
    ensures
        s@ == "```yml\nCurrent Streak: "@ + int_decimal(current as int) + "\nLongest Streak: "@
            + int_decimal(longest as int) + "```"@,
{
    let mut s = String::new();
    push_str(&mut s, "```yml\nCurrent Streak: ");
    push_i64(&mut s, current as i64);
    push_str(&mut s, "\nLongest Streak: ");
    push_i64(&mut s, longest as i64);
    push_str(&mut s, "```");
    s
}

} // verus!

verus! {

/// Whole days from `from` seconds to `to` seconds (rounded down).
pub open spec fn whole_days(from: i64, to: i64) -> int {
    (to - from) / 86400
}

/// The number of days a challenge's statistics are averaged over: the whole
/// days from midnight (UTC) starting the first day of the current month, or
/// of the current year for the 365-day challenge, to `now`, counting 0 days
/// as 1. `None` when a date cannot be represented.
pub open spec fn challenge_days_spec(now: crate::datetime::Instant, timeframe: ChallengeTimeframe) -> Option<i64> {
    match (crate::datetime::utc_year(now.secs, now.nanos), crate::datetime::utc_month(now.secs, now.nanos)) {
        (Some(y), Some(m)) => {
            let month: u32 = match timeframe {
                ChallengeTimeframe::Monthly => m,
                ChallengeTimeframe::YearRound => 1,
            };
            match crate::winner::utc_month_start(y, month) {
                Some(s) => {
                    let d = whole_days(s, now.secs);
                    Some(if d == 0 { 1 } else { d as i64 })
                },
                None => None,
            }
        },
        _ => None,
    }
}

/// The number of days a challenge's statistics are averaged over (see
/// [`challenge_days_spec`]).
pub fn challenge_days(now: crate::datetime::Instant, timeframe: ChallengeTimeframe) -> (r: Option<i64>)
    ensures
        r == challenge_days_spec(now, timeframe),
{
    let y = match crate::datetime::year_of(now) {
        Some(y) => y,
        None => return None,
    };
    let m = match crate::datetime::month_of(now) {
        Some(m) => m,
        None => return None,
    };
    let month: u32 = match timeframe {
        ChallengeTimeframe::Monthly => m,
        ChallengeTimeframe::YearRound => 1,
    };
    let start = match crate::winner::month_start(y, month) {
        Some(s) => s,
        None => return None,
    };
    let diff: i128 = now.secs as i128 - start.secs as i128;
    let q: i128 = diff / 86400;
    let rem: i128 = diff % 86400;
    let d: i128 = if rem < 0 { q - 1 } else { q };
    assert(d == whole_days(start.secs, now.secs));
    Some(if d == 0 { 1 } else { d as i64 })
}

} // verus!

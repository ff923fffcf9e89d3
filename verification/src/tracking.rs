//! Helpers of the tracking commands: the privacy choice, markdown sanitising
//! of quotes, the guild-total announcement trigger, the vanity-role update
//! plan and the confirmation text of an added session.
use vstd::prelude::*;
use crate::roles::{
    StreakRoles, TimeSumRoles, is_streak_role_id, is_time_role_id, streak_role_for,
    streak_role_id, time_role_for, time_role_id,
};
use crate::pagination::PageEmbed;
use crate::time::{MinusOffsetChoice, PlusOffsetChoice, chosen_offset, offset_from_choice};
use crate::text::{int_decimal, nat_decimal, push_char, push_i64, push_str, push_u64, trunc_div};

verus! {

/// Visibility a member picks for a response.
#[derive(Debug, Clone, Copy, PartialEq, Eq, Structural)]
pub enum Privacy {
    Private,
    Public,
}

/// `true` for a private choice.
pub fn is_private(privacy: Privacy) -> (b: bool)
    ensures
        b == (privacy == Privacy::Private),
{
    match privacy {
        Privacy::Private => true,
        Privacy::Public => false,
    }
}

/// The privacy to apply: the member's explicit choice when given, otherwise `default`.
pub fn resolve_privacy(privacy: Option<Privacy>, default: bool) -> (b: bool)
    ensures
        b == match privacy {
            Some(p) => p == Privacy::Private,
            None => default,
        },
{
    match privacy {
        Some(p) => is_private(p),
        None => default,
    }
}

/// ASCII punctuation: the printable ASCII characters that are neither letters,
/// digits nor space.
pub open spec fn is_ascii_punctuation(c: char) -> bool {
    ('!' <= c <= '/') || (':' <= c <= '@') || ('[' <= c <= '`') || ('{' <= c <= '~')
}

fn ascii_punctuation(c: char) -> (b: bool)
    ensures
        b == is_ascii_punctuation(c),
{
    ('!' <= c && c <= '/') || (':' <= c && c <= '@') || ('[' <= c && c <= '`') || ('{' <= c
        && c <= '~')
}

/// What one character of a quote becomes: asterisks are dropped, other ASCII
/// punctuation except `_` and `~` is escaped with a backslash.
pub open spec fn minimized_char(c: char) -> Seq<char> {
    if c == '*' {
        Seq::empty()
    } else if is_ascii_punctuation(c) && c != '_' && c != '~' {
        seq!['\\', c]
    } else {
        seq![c]
    }
}

/// The sanitised text, character by character.
pub open spec fn minimized(s: Seq<char>) -> Seq<char>
    decreases s.len(),
{
    if s.len() == 0 {
        Seq::empty()
    } else {
        minimized(s.drop_last()) + minimized_char(s.last())
    }
}

/// Strips asterisks and escapes all other ASCII punctuation except `_` and `~`,
/// so that a quote shown in italics keeps only underline and strikethrough markdown.
pub fn minimize_markdown(text: &str) -> (res: String)
    ensures
        res@ == minimized(text@),
{
    let mut res = String::new();
    for c in it: text.chars()
        invariant
            it.seq() == text@,
            res@ == minimized(text@.take(it.index() as int)),
    {
        proof {
            assert(text@.take(it.index() as int + 1).drop_last() =~= text@.take(it.index() as int));
        }
        if c == '*' {
        } else if ascii_punctuation(c) && c != '_' && c != '~' {
            push_char(&mut res, '\\');
            push_char(&mut res, c);
        } else {
            push_char(&mut res, c);
        }
        proof {
            assert(res@ =~= minimized(text@.take(it.index() as int + 1)));
        }
    }
    proof {
        assert(text@.take(text@.len() as int) =~= text@);
    }
    res
}

/// The guild's total in hours, announced on every tenth session: `Some(sum / 60)`
/// when the session count is a multiple of ten, `None` otherwise.
pub fn guild_hours(guild_count: i64, guild_sum: i64) -> (hours: Option<i64>)
    ensures
        guild_count % 10 == 0 ==> hours == Some(trunc_div(guild_sum as int, 60) as i64),
        guild_count % 10 != 0 ==> hours is None,
{
    if guild_count % 10 == 0 {
        Some(guild_sum / 60)
    } else {
        None
    }
}

/// The announcement of the guild total.
pub fn guild_hours_message(guild_hours: i64) -> (msg: String)
    ensures
        msg@ == "Awesome sauce! This server has collectively generated "@ + int_decimal(
            guild_hours as int,
        ) + " hours of realmbreaking meditation!"@,
{
    let mut msg = String::new();
    push_str(&mut msg, "Awesome sauce! This server has collectively generated ");
    push_i64(&mut msg, guild_hours);
    push_str(&mut msg, " hours of realmbreaking meditation!");
    msg
}

/// A change of a member's vanity roles: remove the listed roles, then add one.
pub struct RoleUpdate {
    pub remove: Vec<u64>,
    pub add: u64,
}

/// The time-role change for a member with roles `member_roles` and a total of
/// `sum` minutes: none when the total earns no role or the member already has
/// the earned one; otherwise remove every time role the member has and add the
/// earned one.
pub fn plan_time_role_update(member_roles: &Vec<u64>, sum: i64) -> (plan: Option<RoleUpdate>)
    ensures
        match time_role_for(sum as int) {
            None => plan is None,
            Some(r) => if member_roles@.filter(|id: u64| is_time_role_id(id)).contains(
                time_role_id(r),
            ) {
                plan is None
            } else {
                plan matches Some(u) && u.add == time_role_id(r) && u.remove@
                    == member_roles@.filter(|id: u64| is_time_role_id(id))
            },
        },
{
    let current = TimeSumRoles::current(member_roles);
    match TimeSumRoles::from_sum(sum) {
        None => None,
        Some(role) => {
            let id = role.to_role_id();
            if vec_contains(&current, id) {
                None
            } else {
                Some(RoleUpdate { remove: current, add: id })
            }
        },
    }
}

/// The streak-role change for a member with roles `member_roles` and a current
/// streak of `streak` days (a negative streak is read as its `u64` bit pattern,
/// as the role lookup receives it): none when the streak earns no role or the
/// member already has the earned one; otherwise remove every streak role the
/// member has and add the earned one.
pub fn plan_streak_role_update(member_roles: &Vec<u64>, streak: i32) -> (plan: Option<
    RoleUpdate,
>)
    ensures
        match streak_role_for(streak as u64 as int) {
            None => plan is None,
            Some(r) => if member_roles@.filter(|id: u64| is_streak_role_id(id)).contains(
                streak_role_id(r),
            ) {
                plan is None
            } else {
                plan matches Some(u) && u.add == streak_role_id(r) && u.remove@
                    == member_roles@.filter(|id: u64| is_streak_role_id(id))
            },
        },
{
    let current = StreakRoles::current(member_roles);
    match StreakRoles::from_streak(streak as u64) {
        None => None,
        Some(role) => {
            let id = role.to_role_id();
            if vec_contains(&current, id) {
                None
            } else {
                Some(RoleUpdate { remove: current, add: id })
            }
        },
    }
}

fn vec_contains(v: &Vec<u64>, x: u64) -> (b: bool)
    ensures
        b == v@.contains(x),
{
    let mut i: usize = 0;
    while i < v.len()
        invariant
            i <= v.len(),
            forall|j: int| 0 <= j < i ==> v@[j] != x,
        decreases v.len() - i,
    {
        if v[i] == x {
            return true;
        }
        i += 1;
    }
    false
}

/// Text confirming an added session. A private confirmation names nobody; the
/// `add` command speaks to the member, other callers mention them. A quote,
/// when one is available, follows in italics on its own line.
pub fn add_confirmation(
    user_id: u64,
    minutes: i32,
    user_sum: i64,
    privacy: bool,
    from_add_command: bool,
    quote: Option<&str>,
) -> (msg: String)
    ensures
        msg@ == (if privacy {
            "Someone just added **"@ + int_decimal(minutes as int)
                + " minutes** to their meditation time! :tada:"@
        } else if from_add_command {
            "Added **"@ + int_decimal(minutes as int)
                + " minutes** to your meditation time! Your total meditation time is now "@
                + int_decimal(user_sum as int) + " minutes :tada:"@
        } else {
            "<@"@ + nat_decimal(user_id as nat) + "> added **"@ + int_decimal(minutes as int)
                + " minutes** to their meditation time! Their total meditation time is now "@
                + int_decimal(user_sum as int) + " minutes :tada:"@
        }) + match quote {
            Some(q) => "\n*"@ + minimized(q@) + "*"@,
            None => Seq::<char>::empty(),
        },
{
    let mut msg = String::new();
    if privacy {
        push_str(&mut msg, "Someone just added **");
        push_i64(&mut msg, minutes as i64);
        push_str(&mut msg, " minutes** to their meditation time! :tada:");
    } else if from_add_command {
        push_str(&mut msg, "Added **");
        push_i64(&mut msg, minutes as i64);
        push_str(&mut msg, " minutes** to your meditation time! Your total meditation time is now ");
        push_i64(&mut msg, user_sum);
        push_str(&mut msg, " minutes :tada:");
    } else {
        push_str(&mut msg, "<@");
        push_u64(&mut msg, user_id);
        push_str(&mut msg, "> added **");
        push_i64(&mut msg, minutes as i64);
        push_str(&mut msg, " minutes** to their meditation time! Their total meditation time is now ");
        push_i64(&mut msg, user_sum);
        push_str(&mut msg, " minutes :tada:");
    }
    let ghost head = msg@;
    match quote {
        Some(q) => {
            let m = minimize_markdown(q);
            push_str(&mut msg, "\n*");
            push_str(&mut msg, m.as_str());
            push_str(&mut msg, "*");
            assert(msg@ =~= head + ("\n*"@ + minimized(q@) + "*"@));
        },
        None => {
            assert(msg@ =~= head + Seq::<char>::empty());
        },
    }
    msg
}

/// Adding a session of more than 300 minutes asks the member to confirm first.
pub fn needs_confirmation(minutes: i32) -> (b: bool)
    ensures
        b == (minutes > 300),
{
    minutes > 300
}

/// Sanitising never lengthens a text by more than a factor of two and keeps
/// every character that is not an asterisk.
pub proof fn lemma_minimized_length(s: Seq<char>)
    ensures
        minimized(s).len() <= 2 * s.len(),
    decreases s.len(),
{
    if s.len() > 0 {
        lemma_minimized_length(s.drop_last());
    }
}

/// A text without ASCII punctuation passes through sanitising unchanged.
pub proof fn lemma_minimized_plain_text(s: Seq<char>)
    requires
        forall|i: int| 0 <= i < s.len() ==> !is_ascii_punctuation(#[trigger] s[i]),
    ensures
        minimized(s) == s,
    decreases s.len(),
{
    if s.len() > 0 {
        lemma_minimized_plain_text(s.drop_last());
        assert(s.drop_last().push(s.last()) =~= s);
        assert(minimized(s) =~= s);
    }
}

/// The private answer to an added session.
pub fn private_add_message(minutes: i32, user_sum: i64) -> (s: String)
    ensures
        s@ == "Added **"@ + int_decimal(minutes as int)
            + " minutes** to your meditation time! Your total meditation time is now "@
            + int_decimal(user_sum as int) + " minutes :tada:"@,
{
    let mut s = String::new();
    push_str(&mut s, "Added **");
    push_i64(&mut s, minutes as i64);
    push_str(&mut s, " minutes** to your meditation time! Your total meditation time is now ");
    push_i64(&mut s, user_sum);
    push_str(&mut s, " minutes :tada:");
    s
}

/// The question asked before adding a large session.
pub fn large_add_prompt(minutes: i32) -> (s: String)
    ensures
        s@ == "Are you sure you want to add **"@ + int_decimal(minutes as int)
            + "** minutes to your meditation time?"@,
{
    let mut s = String::new();
    push_str(&mut s, "Are you sure you want to add **");
    push_i64(&mut s, minutes as i64);
    push_str(&mut s, "** minutes to your meditation time?");
    s
}

/// The log entry for a confirmed large session added by `author_id`.
pub fn large_add_log(author_id: u64, author_name: &str, minutes: i32, seconds: i32) -> (e: PageEmbed)
    ensures
        e.title@ == "Large Meditation Entry Added"@,
        e.description@ == "**User**: <@"@ + nat_decimal(author_id as nat) + ">\n**Time**: "@
            + int_decimal(minutes as int) + " minutes"@ + if seconds > 0 {
            " "@ + int_decimal(seconds as int) + " second(s)"@
        } else {
            Seq::<char>::empty()
        },
        e.fields@.len() == 0,
        e.footer matches Some(f) && f@ == "Added by "@ + author_name@ + " ("@ + nat_decimal(
            author_id as nat,
        ) + ")"@,
{
    let mut d = String::new();
    push_str(&mut d, "**User**: <@");
    push_u64(&mut d, author_id);
    push_str(&mut d, ">\n**Time**: ");
    push_i64(&mut d, minutes as i64);
    push_str(&mut d, " minutes");
    let ghost head = d@;
    if seconds > 0 {
        push_str(&mut d, " ");
        push_i64(&mut d, seconds as i64);
        push_str(&mut d, " second(s)");
    } else {
        assert(d@ =~= head + Seq::<char>::empty());
    }
    let mut f = String::new();
    push_str(&mut f, "Added by ");
    push_str(&mut f, author_name);
    push_str(&mut f, " (");
    push_u64(&mut f, author_id);
    push_str(&mut f, ")");
    PageEmbed { title: crate::text::str_to_string("Large Meditation Entry Added"), description: d, fields: Vec::new(), footer: Some(f) }
}

/// The reply when the chosen offsets cannot be combined.
pub fn offset_error_message(error: &str) -> (s: String)
    ensures
        s@ == "A problem occurred while attempting to determine the UTC offset based on your choice: "@
            + error@,
{
    let mut s = String::new();
    push_str(
        &mut s,
        "A problem occurred while attempting to determine the UTC offset based on your choice: ",
    );
    push_str(&mut s, error);
    s
}

/// The streak role given back when a member turns streak reporting on again:
/// the role earned by the current streak (its magnitude), unless the member
/// already has it.
pub fn restored_streak_role(member_roles: &Vec<u64>, current: i32) -> (r: Option<u64>)
    ensures
        ({
            let magnitude: int = if current < 0 { -(current as int) } else { current as int };
            match streak_role_for(magnitude) {
                None => r is None,
                Some(role) => if member_roles@.filter(|id: u64| is_streak_role_id(id)).contains(streak_role_id(role)) {
                    r is None
                } else {
                    r == Some(streak_role_id(role))
                },
            }
        }),
{
    let magnitude: u64 = if current < 0 {
        (-(current as i64)) as u64
    } else {
        current as u64
    };
    let held = StreakRoles::current(member_roles);
    match StreakRoles::from_streak(magnitude) {
        None => None,
        Some(role) => {
            let id = role.to_role_id();
            if vec_contains(&held, id) {
                None
            } else {
                Some(id)
            }
        },
    }
}

/// The answer to turning anonymous tracking on (`anonymous`) or off.
pub fn tracking_change_message(anonymous: bool, changed: bool) -> (s: String)
    ensures
        s@ == (if changed {
            "<:mmcheck:1279517233877483601> Anonymous tracking successfully turned **"@
        } else {
            "Anonymous tracking already turned **"@
        }) + (if anonymous { "on"@ } else { "off"@ }) + (if changed {
            "**."@
        } else {
            "**. No changes made."@
        }),
{
    let mut s = String::new();
    if changed {
        push_str(&mut s, "<:mmcheck:1279517233877483601> Anonymous tracking successfully turned **");
    } else {
        push_str(&mut s, "Anonymous tracking already turned **");
    }
    if anonymous {
        push_str(&mut s, "on");
    } else {
        push_str(&mut s, "off");
    }
    if changed {
        push_str(&mut s, "**.");
    } else {
        push_str(&mut s, "**. No changes made.");
    }
    s
}

} // verus!

verus! {

/// Where a congratulation on a new role goes.
#[derive(Debug, Clone, Copy, PartialEq, Eq, Structural)]
pub enum CongratsDestination {
    /// A reply to the command, ephemeral or not.
    Reply(bool),
    /// A message in the tracking channel.
    TrackingChannel,
}

/// Where a congratulation goes: a reply to `add` (private when the entry
/// is); for other commands, a private reply when private, else the tracking
/// channel.
pub fn congrats_destination(from_add_command: bool, privacy: bool) -> (d: CongratsDestination)
    ensures
        d == (if from_add_command {
            CongratsDestination::Reply(privacy)
        } else if privacy {
            CongratsDestination::Reply(true)
        } else {
            CongratsDestination::TrackingChannel
        }),
{
    if from_add_command {
        CongratsDestination::Reply(privacy)
    } else if privacy {
        CongratsDestination::Reply(true)
    } else {
        CongratsDestination::TrackingChannel
    }
}

/// A role is named by its icon only in a private message outside the guild,
/// where a role mention does not render, when it comes from another command
/// than `add`.
pub open spec fn named_by_icon(from_add_command: bool, in_guild: bool, privacy: bool) -> bool {
    !from_add_command && !in_guild && privacy
}

/// The congratulation on a new time role.
pub fn time_role_congrats(member: u64, role: TimeSumRoles, from_add_command: bool, in_guild: bool, privacy: bool) -> (s:
    String)
    ensures
        s@ == (if named_by_icon(from_add_command, in_guild, privacy) {
            ":tada: Congrats "@
        } else {
            ":tada: Congrats to "@
        }) + "<@"@ + nat_decimal(member as nat)
            + ">, your hard work is paying off! Your total meditation minutes have given you the "@
            + (if named_by_icon(from_add_command, in_guild, privacy) {
            "@"@ + crate::roles::time_role_icon(role)
        } else {
            "<@&"@ + nat_decimal(time_role_id(role) as nat) + ">"@
        }) + " role!"@,
{
    let icon = !from_add_command && !in_guild && privacy;
    let mut s = String::new();
    if icon {
        push_str(&mut s, ":tada: Congrats ");
    } else {
        push_str(&mut s, ":tada: Congrats to ");
    }
    push_str(&mut s, "<@");
    push_u64(&mut s, member);
    push_str(&mut s, ">, your hard work is paying off! Your total meditation minutes have given you the ");
    if icon {
        push_str(&mut s, "@");
        push_str(&mut s, role.to_role_icon());
    } else {
        push_str(&mut s, "<@&");
        push_u64(&mut s, role.to_role_id());
        push_str(&mut s, ">");
    }
    push_str(&mut s, " role!");
    s
}

/// The congratulation on a new streak role.
pub fn streak_role_congrats(
    member: u64,
    streak: i32,
    role: StreakRoles,
    from_add_command: bool,
    in_guild: bool,
    privacy: bool,
) -> (s: String)
    ensures
        s@ == ":tada: Congrats to "@ + "<@"@ + nat_decimal(member as nat)
            + ">, your hard work is paying off! Your current streak is "@ + int_decimal(streak as int)
            + ", giving you the "@ + (if named_by_icon(from_add_command, in_guild, privacy) {
            "@"@ + crate::roles::streak_role_icon(role)
        } else {
            "<@&"@ + nat_decimal(streak_role_id(role) as nat) + ">"@
        }) + " role!"@,
{
    let mut s = String::new();
    push_str(&mut s, ":tada: Congrats to ");
    push_str(&mut s, "<@");
    push_u64(&mut s, member);
    push_str(&mut s, ">, your hard work is paying off! Your current streak is ");
    push_i64(&mut s, streak as i64);
    push_str(&mut s, ", giving you the ");
    if !from_add_command && !in_guild && privacy {
        push_str(&mut s, "@");
        push_str(&mut s, role.to_role_icon());
    } else {
        push_str(&mut s, "<@&");
        push_u64(&mut s, role.to_role_id());
        push_str(&mut s, ">");
    }
    push_str(&mut s, " role!");
    s
}

/// The private note when vanity roles could not be updated; `streak` for the
/// streak roles, otherwise the time roles.
pub fn role_update_error(streak: bool) -> (s: String)
    ensures
        s@ == "<:mminfo:1279517292455264359> An error occured while updating your "@ + (if streak {
            "streak"@
        } else {
            "time"@
        }) + " roles. Your entry has been saved, but your roles have not been updated. Please contact a moderator."@,
{
    let mut s = String::new();
    push_str(&mut s, "<:mminfo:1279517292455264359> An error occured while updating your ");
    if streak {
        push_str(&mut s, "streak");
    } else {
        push_str(&mut s, "time");
    }
    push_str(&mut s, " roles. Your entry has been saved, but your roles have not been updated. Please contact a moderator.");
    s
}

/// What a button press means while a large entry waits for confirmation.
#[derive(Debug, Clone, Copy, PartialEq, Eq, Structural)]
pub enum ConfirmPress {
    Confirm,
    Cancel,
    /// A button of something else; keep waiting.
    Unrelated,
}

/// The identifiers of the confirmation buttons: the interaction's identifier
/// followed by `confirm` or `cancel`.
pub fn confirm_button_ids(interaction_id: u64) -> (r: (String, String))
    ensures
        r.0@ == nat_decimal(interaction_id as nat) + "confirm"@,
        r.1@ == nat_decimal(interaction_id as nat) + "cancel"@,
{
    let mut c = String::new();
    push_u64(&mut c, interaction_id);
    push_str(&mut c, "confirm");
    let mut n = String::new();
    push_u64(&mut n, interaction_id);
    push_str(&mut n, "cancel");
    (c, n)
}

/// What a press of the button `pressed` means (see [`ConfirmPress`]).
pub fn confirm_press(pressed: &str, confirm_id: &str, cancel_id: &str) -> (p: ConfirmPress)
    ensures
        p == (if pressed@ == confirm_id@ {
            ConfirmPress::Confirm
        } else if pressed@ == cancel_id@ {
            ConfirmPress::Cancel
        } else {
            ConfirmPress::Unrelated
        }),
{
    let a = crate::text::str_to_string(pressed);
    if a == crate::text::str_to_string(confirm_id) {
        ConfirmPress::Confirm
    } else if a == crate::text::str_to_string(cancel_id) {
        ConfirmPress::Cancel
    } else {
        ConfirmPress::Unrelated
    }
}

/// The text the confirmation message becomes: for a confirmed private entry,
/// the private answer; for a confirmed public one, the public confirmation;
/// otherwise `Cancelled.`.
pub fn confirmation_outcome(confirmed: bool, privacy: bool, minutes: i32, user_sum: i64, response: &str) -> (s: String)
    ensures
        s@ == (if !confirmed {
            "Cancelled."@
        } else if privacy {
            "Added **"@ + int_decimal(minutes as int)
                + " minutes** to your meditation time! Your total meditation time is now "@
                + int_decimal(user_sum as int) + " minutes :tada:"@
        } else {
            response@
        }),
{
    if !confirmed {
        crate::text::str_to_string("Cancelled.")
    } else if privacy {
        private_add_message(minutes, user_sum)
    } else {
        crate::text::str_to_string(response)
    }
}

/// When an entry is recorded: `None` when no offset applies, and the database
/// stamps it with its own current time; otherwise the current time `now`
/// moved by the offset in minutes.
pub fn entry_time(now: crate::datetime::Instant, offset_minutes: i16) -> (t: Option<crate::datetime::Instant>)
    requires
        i64::MIN <= crate::datetime::secs_after_minutes(now, offset_minutes as int) <= i64::MAX,
    ensures
        offset_minutes == 0 ==> t is None,
        offset_minutes != 0 ==> (t matches Some(x) && x.secs == crate::datetime::secs_after_minutes(now, offset_minutes as int)
            && x.nanos == now.nanos),
{
    if offset_minutes == 0 {
        None
    } else {
        Some(now.plus_minutes(offset_minutes))
    }
}

} // verus!

verus! {

/// What the `add` command was asked, with what it knows of the member: the
/// minutes and seconds to add, the offset choices and the member's own
/// offset, whether the answer is private, whether streaks are reported, the
/// interaction's identifier and the author's identifier and name.
#[derive(Debug, PartialEq, Eq)]
pub struct AddRequest<T> {
    pub minutes: i32,
    pub seconds: i32,
    pub minus_offset: Option<MinusOffsetChoice>,
    pub plus_offset: Option<PlusOffsetChoice>,
    pub profile_offset: i16,
    pub privacy: bool,
    pub streaks_enabled: bool,
    pub interaction_id: u64,
    pub author_id: u64,
    pub author_name: T,
}

/// Where the `add` command stands. `T` is the text type: `String` when the
/// command runs, `Seq<char>` in its specification.
#[derive(Debug, PartialEq, Eq)]
pub enum AddState<T> {
    /// Nothing done yet.
    Start(AddRequest<T>),
    /// The entry is being stored in the open transaction.
    Storing(AddRequest<T>),
    /// A large entry waits for the confirm or cancel button; `response` is the
    /// public confirmation text and `user_sum` the member's new total.
    Confirming { request: AddRequest<T>, user_sum: i64, response: T },
    /// The prompt is being replaced after a press of confirm (`confirmed`) or
    /// cancel.
    Updating { request: AddRequest<T>, user_sum: i64, response: T, confirmed: bool },
    /// A confirmed large entry is being committed.
    Committing { request: AddRequest<T>, response: T },
    /// The command is over.
    Done,
    /// The command is over and failed.
    Failed,
}

/// What happened since the last step.
#[derive(Debug, PartialEq, Eq)]
pub enum AddEvent<T> {
    /// The command starts.
    Begin,
    /// The entry was stored: the member's total now and the public
    /// confirmation text.
    Stored { user_sum: i64, response: T },
    /// A button with this identifier was pressed.
    Pressed(T),
    /// A minute passed without a press.
    TimedOut,
    /// The prompt was replaced (`true`) or the update failed.
    PromptUpdated(bool),
    /// The transaction was committed (`true`) or the commit failed.
    Committed(bool),
}

/// What the command does next.
#[derive(Debug, PartialEq, Eq)]
pub enum AddAction<T> {
    /// Reply with `text` and stop; nothing is stored.
    Reply { text: T, ephemeral: bool },
    /// Store the entry in the open transaction, dated now moved by `offset`
    /// minutes (see [`entry_time`]).
    Store { minutes: i32, seconds: i32, offset: i16 },
    /// Ask the question `prompt` with a confirm and a cancel button.
    AskConfirmation { prompt: T, ephemeral: bool, confirm_id: T, cancel_id: T },
    /// Keep waiting for a press.
    KeepWaiting,
    /// Replace the prompt with `text` and remove its buttons.
    UpdatePrompt { text: T, ephemeral: bool },
    /// Commit the transaction.
    Commit,
    /// Replace the prompt with `text` and fail; nothing more is committed.
    EditPromptAndFail { text: T, ephemeral: bool },
    /// Drop the transaction: nothing is committed.
    Discard,
    /// After a committed large entry: post `channel_post` in the channel when
    /// there is one, and the log entry with this title, description and
    /// footer in the log channel. Nothing follows.
    AnnounceLargeAdd { channel_post: Option<T>, log_title: T, log_description: T, log_footer: T },
    /// The ordinary end: read the streak (when `streak_roles`) and the guild
    /// totals, commit with the reply `reply`, post `channel_post` in the
    /// channel when there is one, then announce the guild hours and update the
    /// time roles and, when `streak_roles`, the streak roles.
    CommitAndAnnounce { reply: T, ephemeral: bool, channel_post: Option<T>, streak_roles: bool },
    /// The event does not concern this state; nothing to do.
    Ignore,
}

impl View for AddRequest<String> {
    type V = AddRequest<Seq<char>>;

    open spec fn view(&self) -> AddRequest<Seq<char>> {
        AddRequest {
            minutes: self.minutes,
            seconds: self.seconds,
            minus_offset: self.minus_offset,
            plus_offset: self.plus_offset,
            profile_offset: self.profile_offset,
            privacy: self.privacy,
            streaks_enabled: self.streaks_enabled,
            interaction_id: self.interaction_id,
            author_id: self.author_id,
            author_name: self.author_name@,
        }
    }
}

impl View for AddState<String> {
    type V = AddState<Seq<char>>;

    open spec fn view(&self) -> AddState<Seq<char>> {
        match self {
            AddState::Start(r) => AddState::Start(r@),
            AddState::Storing(r) => AddState::Storing(r@),
            AddState::Confirming { request, user_sum, response } => AddState::Confirming {
                request: request@,
                user_sum: *user_sum,
                response: response@,
            },
            AddState::Updating { request, user_sum, response, confirmed } => AddState::Updating {
                request: request@,
                user_sum: *user_sum,
                response: response@,
                confirmed: *confirmed,
            },
            AddState::Committing { request, response } => AddState::Committing {
                request: request@,
                response: response@,
            },
            AddState::Done => AddState::Done,
            AddState::Failed => AddState::Failed,
        }
    }
}

impl View for AddEvent<String> {
    type V = AddEvent<Seq<char>>;

    open spec fn view(&self) -> AddEvent<Seq<char>> {
        match self {
            AddEvent::Begin => AddEvent::Begin,
            AddEvent::Stored { user_sum, response } => AddEvent::Stored { user_sum: *user_sum, response: response@ },
            AddEvent::Pressed(id) => AddEvent::Pressed(id@),
            AddEvent::TimedOut => AddEvent::TimedOut,
            AddEvent::PromptUpdated(ok) => AddEvent::PromptUpdated(*ok),
            AddEvent::Committed(ok) => AddEvent::Committed(*ok),
        }
    }
}

pub open spec fn opt_text_view(t: Option<String>) -> Option<Seq<char>> {
    match t {
        Some(s) => Some(s@),
        None => None,
    }
}

impl View for AddAction<String> {
    type V = AddAction<Seq<char>>;

    open spec fn view(&self) -> AddAction<Seq<char>> {
        match self {
            AddAction::Reply { text, ephemeral } => AddAction::Reply { text: text@, ephemeral: *ephemeral },
            AddAction::Store { minutes, seconds, offset } => AddAction::Store {
                minutes: *minutes,
                seconds: *seconds,
                offset: *offset,
            },
            AddAction::AskConfirmation { prompt, ephemeral, confirm_id, cancel_id } => AddAction::AskConfirmation {
                prompt: prompt@,
                ephemeral: *ephemeral,
                confirm_id: confirm_id@,
                cancel_id: cancel_id@,
            },
            AddAction::KeepWaiting => AddAction::KeepWaiting,
            AddAction::UpdatePrompt { text, ephemeral } => AddAction::UpdatePrompt { text: text@, ephemeral: *ephemeral },
            AddAction::Commit => AddAction::Commit,
            AddAction::EditPromptAndFail { text, ephemeral } => AddAction::EditPromptAndFail {
                text: text@,
                ephemeral: *ephemeral,
            },
            AddAction::Discard => AddAction::Discard,
            AddAction::AnnounceLargeAdd { channel_post, log_title, log_description, log_footer } =>
                AddAction::AnnounceLargeAdd {
                channel_post: opt_text_view(*channel_post),
                log_title: log_title@,
                log_description: log_description@,
                log_footer: log_footer@,
            },
            AddAction::CommitAndAnnounce { reply, ephemeral, channel_post, streak_roles } =>
                AddAction::CommitAndAnnounce {
                reply: reply@,
                ephemeral: *ephemeral,
                channel_post: opt_text_view(*channel_post),
                streak_roles: *streak_roles,
            },
            AddAction::Ignore => AddAction::Ignore,
        }
    }
}

/// The private answer to an added session (see [`private_add_message`]).
pub open spec fn private_add_text(minutes: int, user_sum: int) -> Seq<char> {
    "Added **"@ + int_decimal(minutes) + " minutes** to your meditation time! Your total meditation time is now "@
        + int_decimal(user_sum) + " minutes :tada:"@
}

/// The identifier of the confirm button (see [`confirm_button_ids`]).
pub open spec fn confirm_id_text(interaction_id: u64) -> Seq<char> {
    nat_decimal(interaction_id as nat) + "confirm"@
}

/// The identifier of the cancel button (see [`confirm_button_ids`]).
pub open spec fn cancel_id_text(interaction_id: u64) -> Seq<char> {
    nat_decimal(interaction_id as nat) + "cancel"@
}

/// The ordinary end of an add: a private entry gets the private answer and
/// its public confirmation goes to the channel; a public one gets the public
/// confirmation as its reply.
pub open spec fn ordinary_add(r: AddRequest<Seq<char>>, user_sum: i64, response: Seq<char>) -> AddAction<Seq<char>> {
    AddAction::CommitAndAnnounce {
        reply: if r.privacy { private_add_text(r.minutes as int, user_sum as int) } else { response },
        ephemeral: r.privacy,
        channel_post: if r.privacy { Some(response) } else { None },
        streak_roles: r.streaks_enabled,
    }
}

/// The description of the log entry of a confirmed large session.
pub open spec fn large_add_description(author_id: u64, minutes: i32, seconds: i32) -> Seq<char> {
    "**User**: <@"@ + nat_decimal(author_id as nat) + ">\n**Time**: "@ + int_decimal(minutes as int)
        + " minutes"@ + if seconds > 0 {
        " "@ + int_decimal(seconds as int) + " second(s)"@
    } else {
        Seq::<char>::empty()
    }
}

/// The text a prompt becomes when updating it after a press failed.
pub open spec fn prompt_update_failed_text() -> Seq<char> {
    "<:mminfo:1279517292455264359> An error may have occurred. If your command failed, please contact staff for assistance."@
}

/// The text a prompt becomes when committing a confirmed entry failed.
pub open spec fn commit_failed_text() -> Seq<char> {
    "<:mminfo:1279517292455264359> A fatal error occurred while trying to save your changes. Please contact staff for assistance."@
}

/// One step of the `add` command. From the start the chosen offset is
/// worked out: when it cannot be, the member is told why and nothing is
/// stored. Otherwise the entry is stored; up to 300 minutes it is committed
/// and announced at once. A larger entry waits for the confirm or cancel
/// button (another button changes nothing): confirm replaces the prompt with
/// the confirmation, commits and logs the entry, with no guild-hours or role
/// follow-up; cancel replaces it with `Cancelled.` and drops the entry. When
/// a minute passes without a press, the entry is committed and announced as
/// an ordinary one. A failed prompt update or commit replaces the prompt with
/// a warning and ends the command.
pub open spec fn add_transition(s: AddState<Seq<char>>, e: AddEvent<Seq<char>>) -> (AddState<Seq<char>>, AddAction<Seq<char>>) {
    match s {
        AddState::Start(r) => match e {
            AddEvent::Begin => match chosen_offset(r.minus_offset, r.plus_offset, r.profile_offset) {
                None => (AddState::Done, AddAction::Reply {
                    text: "A problem occurred while attempting to determine the UTC offset based on your choice: "@
                        + "Cannot have both minus and plus offsets"@,
                    ephemeral: true,
                }),
                Some(o) => (AddState::Storing(r), AddAction::Store { minutes: r.minutes, seconds: r.seconds, offset: o }),
            },
            _ => (s, AddAction::Ignore),
        },
        AddState::Storing(r) => match e {
            AddEvent::Stored { user_sum, response } => if r.minutes > 300 {
                (AddState::Confirming { request: r, user_sum, response }, AddAction::AskConfirmation {
                    prompt: "Are you sure you want to add **"@ + int_decimal(r.minutes as int)
                        + "** minutes to your meditation time?"@,
                    ephemeral: r.privacy,
                    confirm_id: confirm_id_text(r.interaction_id),
                    cancel_id: cancel_id_text(r.interaction_id),
                })
            } else {
                (AddState::Done, ordinary_add(r, user_sum, response))
            },
            _ => (s, AddAction::Ignore),
        },
        AddState::Confirming { request: r, user_sum, response } => match e {
            AddEvent::Pressed(id) => if id == confirm_id_text(r.interaction_id) {
                (AddState::Updating { request: r, user_sum, response, confirmed: true }, AddAction::UpdatePrompt {
                    text: if r.privacy { private_add_text(r.minutes as int, user_sum as int) } else { response },
                    ephemeral: r.privacy,
                })
            } else if id == cancel_id_text(r.interaction_id) {
                (AddState::Updating { request: r, user_sum, response, confirmed: false }, AddAction::UpdatePrompt {
                    text: "Cancelled."@,
                    ephemeral: r.privacy,
                })
            } else {
                (s, AddAction::KeepWaiting)
            },
            AddEvent::TimedOut => (AddState::Done, ordinary_add(r, user_sum, response)),
            _ => (s, AddAction::Ignore),
        },
        AddState::Updating { request: r, user_sum, response, confirmed } => match e {
            AddEvent::PromptUpdated(ok) => if !ok {
                (AddState::Failed, AddAction::EditPromptAndFail { text: prompt_update_failed_text(), ephemeral: r.privacy })
            } else if confirmed {
                (AddState::Committing { request: r, response }, AddAction::Commit)
            } else {
                (AddState::Done, AddAction::Discard)
            },
            _ => (s, AddAction::Ignore),
        },
        AddState::Committing { request: r, response } => match e {
            AddEvent::Committed(ok) => if !ok {
                (AddState::Failed, AddAction::EditPromptAndFail { text: commit_failed_text(), ephemeral: r.privacy })
            } else {
                (AddState::Done, AddAction::AnnounceLargeAdd {
                    channel_post: if r.privacy { Some(response) } else { None },
                    log_title: "Large Meditation Entry Added"@,
                    log_description: large_add_description(r.author_id, r.minutes, r.seconds),
                    log_footer: "Added by "@ + r.author_name + " ("@ + nat_decimal(r.author_id as nat) + ")"@,
                })
            },
            _ => (s, AddAction::Ignore),
        },
        AddState::Done => (s, AddAction::Ignore),
        AddState::Failed => (s, AddAction::Ignore),
    }
}

/// The next state of the `add` command and what it does next (see
/// [`add_transition`]).
pub fn add_step(state: AddState<String>, event: AddEvent<String>) -> (r: (AddState<String>, AddAction<String>))
    ensures
        (r.0@, r.1@) == add_transition(state@, event@),
{
    match state {
        AddState::Start(request) => match event {
            AddEvent::Begin => match offset_from_choice(request.minus_offset, request.plus_offset, request.profile_offset) {
                Err(e) => (AddState::Done, AddAction::Reply { text: offset_error_message(e.as_str()), ephemeral: true }),
                Ok(offset) => {
                    let minutes = request.minutes;
                    let seconds = request.seconds;
                    (AddState::Storing(request), AddAction::Store { minutes, seconds, offset })
                },
            },
            _ => (AddState::Start(request), AddAction::Ignore),
        },
        AddState::Storing(request) => match event {
            AddEvent::Stored { user_sum, response } => if needs_confirmation(request.minutes) {
                let prompt = large_add_prompt(request.minutes);
                let ids = confirm_button_ids(request.interaction_id);
                let ephemeral = request.privacy;
                (AddState::Confirming { request, user_sum, response }, AddAction::AskConfirmation {
                    prompt,
                    ephemeral,
                    confirm_id: ids.0,
                    cancel_id: ids.1,
                })
            } else {
                let action = ordinary_add_action(&request, user_sum, response);
                (AddState::Done, action)
            },
            _ => (AddState::Storing(request), AddAction::Ignore),
        },
        AddState::Confirming { request, user_sum, response } => match event {
            AddEvent::Pressed(id) => {
                let ids = confirm_button_ids(request.interaction_id);
                match confirm_press(id.as_str(), ids.0.as_str(), ids.1.as_str()) {
                    ConfirmPress::Unrelated => (AddState::Confirming { request, user_sum, response }, AddAction::KeepWaiting),
                    press => {
                        let confirmed = press == ConfirmPress::Confirm;
                        let text = confirmation_outcome(confirmed, request.privacy, request.minutes, user_sum, response.as_str());
                        let ephemeral = request.privacy;
                        (AddState::Updating { request, user_sum, response, confirmed }, AddAction::UpdatePrompt { text, ephemeral })
                    },
                }
            },
            AddEvent::TimedOut => {
                let action = ordinary_add_action(&request, user_sum, response);
                (AddState::Done, action)
            },
            _ => (AddState::Confirming { request, user_sum, response }, AddAction::Ignore),
        },
        AddState::Updating { request, user_sum, response, confirmed } => match event {
            AddEvent::PromptUpdated(ok) => if !ok {
                let text = crate::text::str_to_string(
                    "<:mminfo:1279517292455264359> An error may have occurred. If your command failed, please contact staff for assistance.",
                );
                (AddState::Failed, AddAction::EditPromptAndFail { text, ephemeral: request.privacy })
            } else if confirmed {
                (AddState::Committing { request, response }, AddAction::Commit)
            } else {
                (AddState::Done, AddAction::Discard)
            },
            _ => (AddState::Updating { request, user_sum, response, confirmed }, AddAction::Ignore),
        },
        AddState::Committing { request, response } => match event {
            AddEvent::Committed(ok) => if !ok {
                let text = crate::text::str_to_string(
                    "<:mminfo:1279517292455264359> A fatal error occurred while trying to save your changes. Please contact staff for assistance.",
                );
                (AddState::Failed, AddAction::EditPromptAndFail { text, ephemeral: request.privacy })
            } else {
                let log = large_add_log(request.author_id, request.author_name.as_str(), request.minutes, request.seconds);
                let footer = match log.footer {
                    Some(f) => f,
                    None => String::new(),
                };
                let channel_post = if request.privacy { Some(response) } else { None };
                (AddState::Done, AddAction::AnnounceLargeAdd {
                    channel_post,
                    log_title: log.title,
                    log_description: log.description,
                    log_footer: footer,
                })
            },
            _ => (AddState::Committing { request, response }, AddAction::Ignore),
        },
        AddState::Done => (AddState::Done, AddAction::Ignore),
        AddState::Failed => (AddState::Failed, AddAction::Ignore),
    }
}

/// The states reached and the actions taken by the `add` command from `s`
/// through `events`.
pub open spec fn add_run(s: AddState<Seq<char>>, events: Seq<AddEvent<Seq<char>>>) -> (AddState<Seq<char>>, Seq<AddAction<Seq<char>>>)
    decreases events.len(),
{
    if events.len() == 0 {
        (s, Seq::empty())
    } else {
        let step = add_transition(s, events[0]);
        let rest = add_run(step.0, events.drop_first());
        (rest.0, seq![step.1] + rest.1)
    }
}

/// The action stores the entry or commits it.
pub open spec fn writes_entry(a: AddAction<Seq<char>>) -> bool {
    a is Store || a is Commit || a is CommitAndAnnounce
}

/// The action commits the transaction.
pub open spec fn commits(a: AddAction<Seq<char>>) -> bool {
    a is Commit || a is CommitAndAnnounce
}

/// The state belongs to the run of request `r`.
pub open spec fn carries(s: AddState<Seq<char>>, r: AddRequest<Seq<char>>) -> bool {
    match s {
        AddState::Start(q) => q == r,
        AddState::Storing(q) => q == r,
        AddState::Confirming { request, .. } => request == r,
        AddState::Updating { request, .. } => request == r,
        AddState::Committing { request, .. } => request == r,
        AddState::Done => true,
        AddState::Failed => true,
    }
}

proof fn lemma_run_len(s: AddState<Seq<char>>, events: Seq<AddEvent<Seq<char>>>)
    ensures
        add_run(s, events).1.len() == events.len(),
    decreases events.len(),
{
    if events.len() > 0 {
        lemma_run_len(add_transition(s, events[0]).0, events.drop_first());
    }
}

proof fn lemma_run_offset_error(s: AddState<Seq<char>>, r: AddRequest<Seq<char>>, events: Seq<AddEvent<Seq<char>>>)
    requires
        chosen_offset(r.minus_offset, r.plus_offset, r.profile_offset) is None,
        s == AddState::Start(r) || s is Done,
    ensures
        forall|i: int| 0 <= i < add_run(s, events).1.len() ==> !writes_entry(#[trigger] add_run(s, events).1[i]),
    decreases events.len(),
{
    if events.len() > 0 {
        let step = add_transition(s, events[0]);
        lemma_run_offset_error(step.0, r, events.drop_first());
        let acts = add_run(s, events).1;
        let rest = add_run(step.0, events.drop_first()).1;
        assert(acts == seq![step.1] + rest);
        assert forall|i: int| 0 <= i < acts.len() implies !writes_entry(#[trigger] acts[i]) by {
            if i > 0 {
                assert(acts[i] == rest[i - 1]);
            }
        }
    }
}

/// When both offset lists are chosen, the command answers with the offset
/// error alone, privately, and stores nothing, whatever happens next.
pub proof fn lemma_add_offset_error(r: AddRequest<Seq<char>>, events: Seq<AddEvent<Seq<char>>>)
    requires
        r.minus_offset is Some,
        r.plus_offset is Some,
    ensures
        add_transition(AddState::Start(r), AddEvent::Begin) == (AddState::<Seq<char>>::Done, AddAction::Reply {
            text: "A problem occurred while attempting to determine the UTC offset based on your choice: "@
                + "Cannot have both minus and plus offsets"@,
            ephemeral: true,
        }),
        forall|i: int| 0 <= i < add_run(AddState::Start(r), events).1.len()
            ==> !writes_entry(#[trigger] add_run(AddState::Start(r), events).1[i]),
{
    lemma_run_offset_error(AddState::Start(r), r, events);
}

proof fn lemma_run_large_add(s: AddState<Seq<char>>, r: AddRequest<Seq<char>>, events: Seq<AddEvent<Seq<char>>>)
    requires
        r.minutes > 300,
        carries(s, r),
        forall|j: int| 0 <= j < events.len() ==> !(#[trigger] events[j] is TimedOut),
    ensures
        forall|i: int| 0 <= i < add_run(s, events).1.len() ==> !(#[trigger] add_run(s, events).1[i] is CommitAndAnnounce),
        forall|i: int| 0 <= i < add_run(s, events).1.len() && #[trigger] commits(add_run(s, events).1[i]) ==> (
            (s matches AddState::Updating { confirmed, .. } && confirmed)
            || exists|j: int| 0 <= j < i && events[j] == AddEvent::Pressed(confirm_id_text(r.interaction_id))),
    decreases events.len(),
{
    if events.len() > 0 {
        let step = add_transition(s, events[0]);
        let tail = events.drop_first();
        assert(carries(step.0, r));
        assert(!(events[0] is TimedOut));
        assert forall|j: int| 0 <= j < tail.len() implies !(#[trigger] tail[j] is TimedOut) by {
            assert(tail[j] == events[j + 1]);
        }
        lemma_run_large_add(step.0, r, tail);
        lemma_run_len(step.0, tail);
        let acts = add_run(s, events).1;
        let rest = add_run(step.0, tail).1;
        assert(acts == seq![step.1] + rest);
        assert(!(step.1 is CommitAndAnnounce));
        assert forall|i: int| 0 <= i < acts.len() && #[trigger] commits(acts[i]) implies (
            (s matches AddState::Updating { confirmed, .. } && confirmed)
            || exists|j: int| 0 <= j < i && events[j] == AddEvent::Pressed(confirm_id_text(r.interaction_id))) by {
            if i > 0 {
                assert(acts[i] == rest[i - 1]);
                assert(commits(rest[i - 1]));
                if step.0 matches AddState::Updating { confirmed, .. } && confirmed {
                    if !(s matches AddState::Updating { confirmed, .. } && confirmed) {
                        assert(events[0] == AddEvent::Pressed(confirm_id_text(r.interaction_id)));
                    }
                } else {
                    assert(exists|j: int| 0 <= j < i - 1 && tail[j] == AddEvent::Pressed(confirm_id_text(r.interaction_id)));
                    let j = choose|j: int| 0 <= j < i - 1 && tail[j] == AddEvent::Pressed(confirm_id_text(r.interaction_id));
                    assert(events[j + 1] == tail[j]);
                }
            }
        }
    }
}

/// An entry of more than 300 minutes is committed only after a press of its
/// confirm button, and never with the guild-hours and role follow-up of an
/// ordinary entry; this holds of every run in which the confirmation does not
/// time out.
pub proof fn lemma_large_add_needs_confirm(r: AddRequest<Seq<char>>, events: Seq<AddEvent<Seq<char>>>)
    requires
        r.minutes > 300,
        forall|j: int| 0 <= j < events.len() ==> !(#[trigger] events[j] is TimedOut),
    ensures
        forall|i: int| 0 <= i < add_run(AddState::Start(r), events).1.len()
            ==> !(#[trigger] add_run(AddState::Start(r), events).1[i] is CommitAndAnnounce),
        forall|i: int| 0 <= i < add_run(AddState::Start(r), events).1.len()
            && #[trigger] commits(add_run(AddState::Start(r), events).1[i])
            ==> exists|j: int| 0 <= j < i && events[j] == AddEvent::Pressed(confirm_id_text(r.interaction_id)),
{
    lemma_run_large_add(AddState::Start(r), r, events);
}

proof fn lemma_run_after_cancel(s: AddState<Seq<char>>, events: Seq<AddEvent<Seq<char>>>)
    requires
        (s matches AddState::Updating { confirmed, .. } && !confirmed) || s is Done || s is Failed,
    ensures
        forall|i: int| 0 <= i < add_run(s, events).1.len() ==> !commits(#[trigger] add_run(s, events).1[i]),
    decreases events.len(),
{
    if events.len() > 0 {
        let step = add_transition(s, events[0]);
        lemma_run_after_cancel(step.0, events.drop_first());
        let acts = add_run(s, events).1;
        let rest = add_run(step.0, events.drop_first()).1;
        assert(acts == seq![step.1] + rest);
        assert forall|i: int| 0 <= i < acts.len() implies !commits(#[trigger] acts[i]) by {
            if i > 0 {
                assert(acts[i] == rest[i - 1]);
            }
        }
    }
}

/// While a large entry waits for confirmation, a press of its cancel button
/// replaces the prompt with `Cancelled.` and nothing is committed afterwards;
/// a press of another button keeps it waiting; and when a minute passes
/// without a press, the entry is committed and announced as an ordinary one.
pub proof fn lemma_confirmation_presses(
    r: AddRequest<Seq<char>>,
    user_sum: i64,
    response: Seq<char>,
    other: Seq<char>,
    events: Seq<AddEvent<Seq<char>>>,
)
    requires
        other != confirm_id_text(r.interaction_id),
        other != cancel_id_text(r.interaction_id),
    ensures
        ({
            let waiting = AddState::Confirming { request: r, user_sum, response };
            let cancelled = add_transition(waiting, AddEvent::Pressed(cancel_id_text(r.interaction_id)));
            &&& cancelled.1 == AddAction::UpdatePrompt { text: "Cancelled."@, ephemeral: r.privacy }
            &&& forall|i: int| 0 <= i < add_run(cancelled.0, events).1.len()
                ==> !commits(#[trigger] add_run(cancelled.0, events).1[i])
            &&& add_transition(waiting, AddEvent::Pressed(other)) == (waiting, AddAction::<Seq<char>>::KeepWaiting)
            &&& add_transition(waiting, AddEvent::TimedOut) == (AddState::<Seq<char>>::Done, ordinary_add(r, user_sum, response))
        }),
{
    reveal_strlit("confirm");
    reveal_strlit("cancel");
    let n = nat_decimal(r.interaction_id as nat);
    assert((n + "confirm"@).len() != (n + "cancel"@).len());
    let waiting = AddState::Confirming { request: r, user_sum, response };
    let cancelled = add_transition(waiting, AddEvent::Pressed(cancel_id_text(r.interaction_id)));
    lemma_run_after_cancel(cancelled.0, events);
}

fn ordinary_add_action(request: &AddRequest<String>, user_sum: i64, response: String) -> (a: AddAction<String>)
    ensures
        a@ == ordinary_add(request@, user_sum, response@),
{
    if request.privacy {
        let reply = private_add_message(request.minutes, user_sum);
        AddAction::CommitAndAnnounce { reply, ephemeral: true, channel_post: Some(response), streak_roles: request.streaks_enabled }
    } else {
        AddAction::CommitAndAnnounce { reply: response, ephemeral: false, channel_post: None, streak_roles: request.streaks_enabled }
    }
}

} // verus!

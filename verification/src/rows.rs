//! Stored records that the bot lists (Steam keys and their recipients,
//! bookmarks, courses, erases, starred messages) and how each is listed.
use vstd::prelude::*;
use crate::datetime::{Instant, format_utc, utc_format};
use crate::ids::{is_ulid_char_upper, new_ulid_string};
use crate::pagination::{PageRow, PageType};
use crate::text::{int_decimal, nat_decimal, push_i64, push_str, push_u64, str_to_string};

verus! {

/// How Discord renders a mention of a user.
pub open spec fn user_mention(id: u64) -> Seq<char> {
    "<@"@ + nat_decimal(id as nat) + ">"@
}

/// How Discord renders a mention of a role.
pub open spec fn role_mention(id: u64) -> Seq<char> {
    "<@&"@ + nat_decimal(id as nat) + ">"@
}

/// `Yes` or `No`.
pub open spec fn yes_no(b: bool) -> Seq<char> {
    if b {
        "Yes"@
    } else {
        "No"@
    }
}

/// A flag that may be unset, shown as `Yes` only when set to true.
pub open spec fn yes_no_opt(b: Option<bool>) -> Seq<char> {
    match b {
        Some(v) => yes_no(v),
        None => "No"@,
    }
}

/// The identifier is a freshly generated ULID: 26 upper-case alphabet characters.
pub open spec fn fresh_id(id: Seq<char>) -> bool {
    id.len() == 26 && forall|i: int| 0 <= i < id.len() ==> is_ulid_char_upper(#[trigger] id[i])
}

pub(crate) fn push_user_mention(s: &mut String, id: u64)
    ensures
        final(s)@ == old(s)@ + user_mention(id),
{
    push_str(s, "<@");
    push_u64(s, id);
    push_str(s, ">");
}

fn push_role_mention(s: &mut String, id: u64)
    ensures
        final(s)@ == old(s)@ + role_mention(id),
{
    push_str(s, "<@&");
    push_u64(s, id);
    push_str(s, ">");
}

fn push_yes_no(s: &mut String, b: bool)
    ensures
        final(s)@ == old(s)@ + yes_no(b),
{
    if b {
        push_str(s, "Yes");
    } else {
        push_str(s, "No");
    }
}

/// A Steam key that can be handed out as a prize.
pub struct SteamKey {
    pub guild_id: u64,
    pub key: String,
    pub used: bool,
    pub reserved: Option<u64>,
}

/// The listing body of a Steam key.
pub open spec fn steam_key_body(used: bool, reserved: Option<u64>) -> Seq<char> {
    "Used: "@ + yes_no(used) + "\nReserved for: "@ + match reserved {
        Some(id) => user_mention(id),
        None => "Nobody"@,
    }
}

impl SteamKey {
    /// An unused, unreserved key of a guild.
    pub fn new(guild_id: u64, key: String) -> (k: SteamKey)
        ensures
            k.guild_id == guild_id && k.key == key && !k.used && k.reserved is None,
    {
        SteamKey { guild_id, key, used: false, reserved: None }
    }
}

impl PageRow for SteamKey {
    open spec fn title_text(&self, page_type: PageType) -> Seq<char> {
        self.key@
    }

    open spec fn body_text(&self) -> Seq<char> {
        steam_key_body(self.used, self.reserved)
    }

    /// The key itself.
    fn title(&self, page_type: PageType) -> (s: String)
        ensures
            s@ == self.key@,
    {
        str_to_string(self.key.as_str())
    }

    /// Whether it was used and whom it is reserved for.
    fn body(&self) -> (s: String)
        ensures
            s@ == steam_key_body(self.used, self.reserved),
    {
        let mut s = String::new();
        push_str(&mut s, "Used: ");
        push_yes_no(&mut s, self.used);
        push_str(&mut s, "\nReserved for: ");
        match self.reserved {
            Some(id) => push_user_mention(&mut s, id),
            None => push_str(&mut s, "Nobody"),
        }
        s
    }
}

/// A member who received Steam keys.
pub struct Recipient {
    pub guild_id: u64,
    pub user_id: u64,
    pub challenge_prize: Option<bool>,
    pub donator_perk: Option<bool>,
    pub total_keys: i16,
}

/// The listing body of a recipient.
pub open spec fn recipient_body(r: Recipient) -> Seq<char> {
    "Name: "@ + user_mention(r.user_id) + "\nDonator Perk: "@ + yes_no_opt(r.donator_perk)
        + "\nChallenge Prize: "@ + yes_no_opt(r.challenge_prize) + "\nTotal Keys: "@
        + int_decimal(r.total_keys as int)
}

impl Recipient {
    /// A recipient with the given values.
    pub fn new(
        guild_id: u64,
        user_id: u64,
        challenge_prize: Option<bool>,
        donator_perk: Option<bool>,
        total_keys: i16,
    ) -> (r: Recipient)
        ensures
            r == (Recipient { guild_id, user_id, challenge_prize, donator_perk, total_keys }),
    {
        Recipient { guild_id, user_id, challenge_prize, donator_perk, total_keys }
    }
}

impl PageRow for Recipient {
    open spec fn title_text(&self, page_type: PageType) -> Seq<char> {
        "__Recipient__"@
    }

    open spec fn body_text(&self) -> Seq<char> {
        recipient_body(*self)
    }

    /// `__Recipient__`.
    fn title(&self, page_type: PageType) -> (s: String)
        ensures
            s@ == "__Recipient__"@,
    {
        str_to_string("__Recipient__")
    }

    /// The member, the two flags and the number of keys received.
    fn body(&self) -> (s: String)
        ensures
            s@ == recipient_body(*self),
    {
        let mut s = String::new();
        push_str(&mut s, "Name: ");
        push_user_mention(&mut s, self.user_id);
        push_str(&mut s, "\nDonator Perk: ");
        match self.donator_perk {
            Some(v) => push_yes_no(&mut s, v),
            None => push_str(&mut s, "No"),
        }
        push_str(&mut s, "\nChallenge Prize: ");
        match self.challenge_prize {
            Some(v) => push_yes_no(&mut s, v),
            None => push_str(&mut s, "No"),
        }
        push_str(&mut s, "\nTotal Keys: ");
        push_i64(&mut s, self.total_keys as i64);
        s
    }
}

/// A message a member bookmarked.
pub struct Bookmark {
    pub id: String,
    pub guild_id: u64,
    pub user_id: u64,
    pub link: String,
    pub description: Option<String>,
    pub added: Option<Instant>,
}

/// The listing body of a bookmark: the description quoted (when there is one),
/// when it was added (a Discord timestamp; 0 when unknown) and its identifier.
pub open spec fn bookmark_body(id: Seq<char>, description: Option<String>, added: Option<Instant>) -> Seq<char> {
    (match description {
        Some(d) => "> "@ + d@ + "\n"@,
        None => Seq::empty(),
    }) + "> -# Added: <t:"@ + int_decimal(
        match added {
            Some(t) => t.secs as int,
            None => 0,
        },
    ) + ":f>\n> -# ID: ["@ + id + "](discord://"@ + id
        + " \"For copying a bookmark ID on mobile. Not a working link.\")\n** **"@
}

impl Bookmark {
    /// A new bookmark under a freshly generated ULID, not yet stored.
    pub fn new(guild_id: u64, user_id: u64, link: String, description: Option<String>) -> (b:
        Bookmark)
        ensures
            fresh_id(b.id@),
            b.guild_id == guild_id && b.user_id == user_id && b.link == link && b.description
                == description && b.added is None,
    {
        Bookmark { id: new_ulid_string(), guild_id, user_id, link, description, added: None }
    }

    /// The bookmark's identifier.
    pub fn id(&self) -> (s: &str)
        ensures
            s@ == self.id@,
    {
        self.id.as_str()
    }

    /// When the bookmark was stored, if known.
    pub fn added(&self) -> (t: Option<Instant>)
        ensures
            t == self.added,
    {
        self.added
    }
}

impl PageRow for Bookmark {
    open spec fn title_text(&self, page_type: PageType) -> Seq<char> {
        self.link@
    }

    open spec fn body_text(&self) -> Seq<char> {
        bookmark_body(self.id@, self.description, self.added)
    }

    /// The bookmarked message's link.
    fn title(&self, page_type: PageType) -> (s: String)
        ensures
            s@ == self.link@,
    {
        str_to_string(self.link.as_str())
    }

    /// Description, time added and identifier.
    fn body(&self) -> (s: String)
        ensures
            s@ == bookmark_body(self.id@, self.description, self.added),
    {
        let mut s = String::new();
        match &self.description {
            Some(d) => {
                push_str(&mut s, "> ");
                push_str(&mut s, d.as_str());
                push_str(&mut s, "\n");
            },
            None => {},
        }
        push_str(&mut s, "> -# Added: <t:");
        let ts: i64 = match self.added {
            Some(t) => t.secs,
            None => 0,
        };
        push_i64(&mut s, ts);
        push_str(&mut s, ":f>\n> -# ID: [");
        push_str(&mut s, self.id.as_str());
        push_str(&mut s, "](discord://");
        push_str(&mut s, self.id.as_str());
        push_str(
            &mut s,
            " \"For copying a bookmark ID on mobile. Not a working link.\")\n** **",
        );
        s
    }
}

/// A course with its participant and graduate roles.
pub struct Course {
    pub name: String,
    pub participant_role: u64,
    pub graduate_role: u64,
    pub guild_id: u64,
}

impl Course {
    /// A course with the given values.
    pub fn new(name: String, participant_role: u64, graduate_role: u64, guild_id: u64) -> (c:
        Course)
        ensures
            c == (Course { name, participant_role, graduate_role, guild_id }),
    {
        Course { name, participant_role, graduate_role, guild_id }
    }
}

impl PageRow for Course {
    open spec fn title_text(&self, page_type: PageType) -> Seq<char> {
        "`"@ + self.name@ + "`"@
    }

    open spec fn body_text(&self) -> Seq<char> {
        "Participants: "@ + role_mention(self.participant_role) + "\nGraduates: "@
                + role_mention(self.graduate_role)
    }

    /// The course name in backticks.
    fn title(&self, page_type: PageType) -> (s: String)
        ensures
            s@ == "`"@ + self.name@ + "`"@,
    {
        let mut s = String::new();
        push_str(&mut s, "`");
        push_str(&mut s, self.name.as_str());
        push_str(&mut s, "`");
        s
    }

    /// The two roles, mentioned.
    fn body(&self) -> (s: String)
        ensures
            s@ == "Participants: "@ + role_mention(self.participant_role) + "\nGraduates: "@
                + role_mention(self.graduate_role),
    {
        let mut s = String::new();
        push_str(&mut s, "Participants: ");
        push_role_mention(&mut s, self.participant_role);
        push_str(&mut s, "\nGraduates: ");
        push_role_mention(&mut s, self.graduate_role);
        s
    }
}

/// A record of a member's message erased by the moderators.
pub struct Erase {
    pub id: String,
    pub guild_id: u64,
    pub user_id: u64,
    pub message_link: String,
    pub reason: String,
    pub occurred_at: Instant,
}

/// The date format each title variant uses.
pub open spec fn erase_date_format(page_type: PageType) -> Seq<char> {
    match page_type {
        PageType::Standard => "%Y-%m-%d %H:%M"@,
        PageType::Alternate => "%e %B %Y %H:%M"@,
    }
}

/// The listing title of an erase: `Not Available` for a record without a
/// date (the epoch), else the rendered date; `None` when it cannot be rendered.
pub open spec fn erase_title(occurred_at: Instant, page_type: PageType) -> Option<Seq<char>> {
    if occurred_at.secs == 0 && occurred_at.nanos == 0 {
        Some("Date: `Not Available`"@)
    } else {
        match utc_format(occurred_at.secs, occurred_at.nanos, erase_date_format(page_type)) {
            Some(d) => Some("Date: `"@ + d + "`"@),
            None => None,
        }
    }
}

/// The listing body of an erase: the reason and the link to the notification
/// (a stored link of `None` means there was no notification).
pub open spec fn erase_body(reason: Seq<char>, message_link: Seq<char>) -> Seq<char> {
    if message_link == "None"@ {
        "**Reason:** "@ + reason + "\n-# Notification not available"@
    } else {
        "**Reason:** "@ + reason + "\n[Go to erase notification]("@ + message_link + ")"@
    }
}

impl Erase {
    /// A new erase record under a freshly generated ULID.
    pub fn new(guild_id: u64, user_id: u64, link: String, reason: String, datetime: Instant) -> (e:
        Erase)
        ensures
            fresh_id(e.id@),
            e.guild_id == guild_id && e.user_id == user_id && e.message_link == link && e.reason
                == reason && e.occurred_at == datetime,
    {
        Erase {
            id: new_ulid_string(),
            guild_id,
            user_id,
            message_link: link,
            reason,
            occurred_at: datetime,
        }
    }

    /// The listing title for a page type; `None` when the date cannot be rendered.
    pub fn title(&self, page_type: PageType) -> (s: Option<String>)
        ensures
            match erase_title(self.occurred_at, page_type) {
                Some(t) => s matches Some(x) && x@ == t,
                None => s is None,
            },
    {
        if self.occurred_at.secs == 0 && self.occurred_at.nanos == 0 {
            return Some(str_to_string("Date: `Not Available`"));
        }
        let d = match page_type {
            PageType::Standard => format_utc(self.occurred_at, "%Y-%m-%d %H:%M"),
            PageType::Alternate => format_utc(self.occurred_at, "%e %B %Y %H:%M"),
        };
        match d {
            Some(d) => {
                let mut s = String::new();
                push_str(&mut s, "Date: `");
                push_str(&mut s, d.as_str());
                push_str(&mut s, "`");
                Some(s)
            },
            None => None,
        }
    }

    /// The listing body: the reason and the link to the notification.
    pub fn body(&self) -> (s: String)
        ensures
            s@ == erase_body(self.reason@, self.message_link@),
    {
        let none = str_to_string("None");
        let mut s = String::new();
        push_str(&mut s, "**Reason:** ");
        push_str(&mut s, self.reason.as_str());
        if self.message_link == none {
            push_str(&mut s, "\n-# Notification not available");
        } else {
            push_str(&mut s, "\n[Go to erase notification](");
            push_str(&mut s, self.message_link.as_str());
            push_str(&mut s, ")");
        }
        s
    }
}

impl Default for Erase {
    /// The record used where none was stored: no link, no reason given, no date.
    fn default() -> (e: Erase)
        ensures
            e.id@ == Seq::<char>::empty(),
            e.guild_id == 0 && e.user_id == 0,
            e.message_link@ == "None"@,
            e.reason@ == "No reason provided."@,
            e.occurred_at.secs == 0 && e.occurred_at.nanos == 0,
    {
        Erase {
            id: String::new(),
            guild_id: 0,
            user_id: 0,
            message_link: str_to_string("None"),
            reason: str_to_string("No reason provided."),
            occurred_at: Instant::epoch(),
        }
    }

}

/// A message posted to the star board, and the board post that shows it.
pub struct StarMessage {
    pub id: String,
    pub starred_channel: u64,
    pub starred_message: u64,
    pub board_message: u64,
}

impl StarMessage {
    /// A new record under a freshly generated ULID.
    pub fn new(starred_channel: u64, starred_message: u64, board_message: u64) -> (m: StarMessage)
        ensures
            fresh_id(m.id@),
            m.starred_channel == starred_channel && m.starred_message == starred_message
                && m.board_message == board_message,
    {
        StarMessage { id: new_ulid_string(), starred_channel, starred_message, board_message }
    }
}

/// What a request to update a key recipient's record leads to.
pub enum RecipientUpdate {
    /// Nothing to change was given.
    NoInput,
    /// There is no record and no number of keys to create one with.
    NeedsKeyCount,
    /// A new record is added.
    Add(Recipient),
    /// A number of zero keys asks to remove the record, after confirmation.
    ConfirmRemoval,
    /// The record is replaced by this one.
    Update(Recipient),
}

/// The outcome of an update request for the member `user_id` given the stored
/// record: values not given are kept from the record.
pub open spec fn recipient_update(
    guild_id: u64,
    user_id: u64,
    existing: Option<Recipient>,
    challenge_prize: Option<bool>,
    donator_perk: Option<bool>,
    total_keys: Option<i16>,
) -> RecipientUpdate {
    if challenge_prize is None && donator_perk is None && total_keys is None {
        RecipientUpdate::NoInput
    } else {
        match existing {
            None => match total_keys {
                Some(t) => RecipientUpdate::Add(
                    Recipient { guild_id, user_id, challenge_prize, donator_perk, total_keys: t },
                ),
                None => RecipientUpdate::NeedsKeyCount,
            },
            Some(r) => if total_keys == Some(0i16) {
                RecipientUpdate::ConfirmRemoval
            } else {
                RecipientUpdate::Update(
                    Recipient {
                        guild_id,
                        user_id,
                        challenge_prize: if challenge_prize is Some {
                            challenge_prize
                        } else {
                            r.challenge_prize
                        },
                        donator_perk: if donator_perk is Some {
                            donator_perk
                        } else {
                            r.donator_perk
                        },
                        total_keys: match total_keys {
                            Some(t) => t,
                            None => r.total_keys,
                        },
                    },
                )
            },
        }
    }
}

/// Decides what an update request for a key recipient leads to (see
/// [`recipient_update`]).
pub fn plan_recipient_update(
    guild_id: u64,
    user_id: u64,
    existing: Option<&Recipient>,
    challenge_prize: Option<bool>,
    donator_perk: Option<bool>,
    total_keys: Option<i16>,
) -> (u: RecipientUpdate)
    ensures
        u == recipient_update(
            guild_id,
            user_id,
            match existing {
                Some(r) => Some(*r),
                None => None,
            },
            challenge_prize,
            donator_perk,
            total_keys,
        ),
{
    if challenge_prize.is_none() && donator_perk.is_none() && total_keys.is_none() {
        return RecipientUpdate::NoInput;
    }
    match existing {
        None => match total_keys {
            Some(t) => RecipientUpdate::Add(
                Recipient::new(guild_id, user_id, challenge_prize, donator_perk, t),
            ),
            None => RecipientUpdate::NeedsKeyCount,
        },
        Some(r) => {
            if total_keys == Some(0i16) {
                return RecipientUpdate::ConfirmRemoval;
            }
            let cp = match challenge_prize {
                Some(v) => Some(v),
                None => r.challenge_prize,
            };
            let dp = match donator_perk {
                Some(v) => Some(v),
                None => r.donator_perk,
            };
            let tk = match total_keys {
                Some(t) => t,
                None => r.total_keys,
            };
            RecipientUpdate::Update(Recipient::new(guild_id, user_id, cp, dp, tk))
        },
    }
}

/// What the course commands read of a guild role.
#[derive(Debug, Clone, Copy, PartialEq, Eq, Structural)]
pub struct RoleInfo {
    pub id: u64,
    pub guild_id: u64,
    pub managed: bool,
    pub administrator: bool,
}

/// Why a pair of roles cannot serve a course.
#[derive(Debug, Clone, Copy, PartialEq, Eq, Structural)]
pub enum CourseRoleError {
    ParticipantOtherGuild,
    GraduateOtherGuild,
    ParticipantManaged,
    GraduateManaged,
    ParticipantAdministrator,
    GraduateAdministrator,
    SameRoles,
}

/// The first problem of a pair of course roles, checked in this order: both
/// belong to the guild, neither is managed by an integration, neither grants
/// administrator rights, and they differ.
pub open spec fn course_roles_problem(guild_id: u64, p: RoleInfo, g: RoleInfo) -> Option<CourseRoleError> {
    if p.guild_id != guild_id {
        Some(CourseRoleError::ParticipantOtherGuild)
    } else if g.guild_id != guild_id {
        Some(CourseRoleError::GraduateOtherGuild)
    } else if p.managed {
        Some(CourseRoleError::ParticipantManaged)
    } else if g.managed {
        Some(CourseRoleError::GraduateManaged)
    } else if p.administrator {
        Some(CourseRoleError::ParticipantAdministrator)
    } else if g.administrator {
        Some(CourseRoleError::GraduateAdministrator)
    } else if p.id == g.id {
        Some(CourseRoleError::SameRoles)
    } else {
        None
    }
}

/// The explanation of a role problem.
pub open spec fn course_role_text(e: CourseRoleError) -> Seq<char> {
    match e {
        CourseRoleError::ParticipantOtherGuild => "Participant role must belong to the same guild as the command."@,
        CourseRoleError::GraduateOtherGuild => "Graduate role must belong to the same guild as the command."@,
        CourseRoleError::ParticipantManaged => "Participant role cannot be a bot role."@,
        CourseRoleError::GraduateManaged => "Graduate role cannot be a bot role."@,
        CourseRoleError::ParticipantAdministrator => "Participant role cannot be an administrator role."@,
        CourseRoleError::GraduateAdministrator => "Graduate role cannot be an administrator role."@,
        CourseRoleError::SameRoles => "Participant and graduate roles must not be the same."@,
    }
}

impl CourseRoleError {
    /// The explanation of the problem.
    pub fn message(&self) -> (s: &'static str)
        ensures
            s@ == course_role_text(*self),
    {
        match self {
            CourseRoleError::ParticipantOtherGuild => "Participant role must belong to the same guild as the command.",
            CourseRoleError::GraduateOtherGuild => "Graduate role must belong to the same guild as the command.",
            CourseRoleError::ParticipantManaged => "Participant role cannot be a bot role.",
            CourseRoleError::GraduateManaged => "Graduate role cannot be a bot role.",
            CourseRoleError::ParticipantAdministrator => "Participant role cannot be an administrator role.",
            CourseRoleError::GraduateAdministrator => "Graduate role cannot be an administrator role.",
            CourseRoleError::SameRoles => "Participant and graduate roles must not be the same.",
        }
    }
}

/// Whether two roles may serve as a course's participant and graduate roles;
/// the first problem found otherwise (see [`course_roles_problem`]).
pub fn check_eligibility(guild_id: u64, participant_role: &RoleInfo, graduate_role: &RoleInfo) -> (r: Result<bool, CourseRoleError>)
    ensures
        match course_roles_problem(guild_id, *participant_role, *graduate_role) {
            Some(e) => r == Err::<bool, CourseRoleError>(e),
            None => r == Ok::<bool, CourseRoleError>(true),
        },
{
    if participant_role.guild_id != guild_id {
        return Err(CourseRoleError::ParticipantOtherGuild);
    }
    if graduate_role.guild_id != guild_id {
        return Err(CourseRoleError::GraduateOtherGuild);
    }
    if participant_role.managed {
        return Err(CourseRoleError::ParticipantManaged);
    }
    if graduate_role.managed {
        return Err(CourseRoleError::GraduateManaged);
    }
    if participant_role.administrator {
        return Err(CourseRoleError::ParticipantAdministrator);
    }
    if graduate_role.administrator {
        return Err(CourseRoleError::GraduateAdministrator);
    }
    if participant_role.id == graduate_role.id {
        return Err(CourseRoleError::SameRoles);
    }
    Ok(true)
}

/// Where claiming a course's graduate role stands.
#[derive(Debug, Clone, Copy, PartialEq, Eq, Structural)]
pub enum Completion {
    CourseNotFound,
    GuildUnavailable,
    NotAMember,
    NotEnrolled,
    AlreadyGraduated,
    /// The graduate role can be given.
    Eligible,
}

/// The first obstacle to claiming a graduate role, in the order the command
/// checks them.
pub fn completion_status(course_found: bool, guild_available: bool, is_member: bool, has_participant_role: bool, has_graduate_role: bool) -> (c: Completion)
    ensures
        c == (if !course_found {
            Completion::CourseNotFound
        } else if !guild_available {
            Completion::GuildUnavailable
        } else if !is_member {
            Completion::NotAMember
        } else if !has_participant_role {
            Completion::NotEnrolled
        } else if has_graduate_role {
            Completion::AlreadyGraduated
        } else {
            Completion::Eligible
        }),
{
    if !course_found {
        Completion::CourseNotFound
    } else if !guild_available {
        Completion::GuildUnavailable
    } else if !is_member {
        Completion::NotAMember
    } else if !has_participant_role {
        Completion::NotEnrolled
    } else if has_graduate_role {
        Completion::AlreadyGraduated
    } else {
        Completion::Eligible
    }
}

/// The reply to a completion that is not possible.
pub fn completion_message(c: Completion, course_name: &str) -> (s: String)
    requires
        c != Completion::Eligible,
    ensures
        s@ == "<:mminfo:1279517292455264359> "@ + match c {
            Completion::CourseNotFound => "Course not found. Please contact server staff for assistance."@,
            Completion::GuildUnavailable => "Can't retrieve server information. Please contact server staff for assistance."@,
            Completion::NotAMember => "You don't appear to be a member of the server. If I'm mistaken, please contact server staff for assistance."@,
            Completion::NotEnrolled => "You are not enrolled in the course: **"@ + course_name@ + "**."@,
            _ => "You have already claimed the graduate role for course: **"@ + course_name@ + "**."@,
        },
{
    let mut s = String::new();
    push_str(&mut s, "<:mminfo:1279517292455264359> ");
    match c {
        Completion::CourseNotFound => push_str(&mut s, "Course not found. Please contact server staff for assistance."),
        Completion::GuildUnavailable => push_str(&mut s, "Can't retrieve server information. Please contact server staff for assistance."),
        Completion::NotAMember => push_str(&mut s, "You don't appear to be a member of the server. If I'm mistaken, please contact server staff for assistance."),
        Completion::NotEnrolled => {
            push_str(&mut s, "You are not enrolled in the course: **");
            push_str(&mut s, course_name);
            push_str(&mut s, "**.");
        },
        _ => {
            push_str(&mut s, "You have already claimed the graduate role for course: **");
            push_str(&mut s, course_name);
            push_str(&mut s, "**.");
        },
    }
    s
}

/// The congratulation on graduating, with a note when the participant role
/// could not be removed.
pub fn graduation_message(course_name: &str, participant_role_removed: bool) -> (s: String)
    ensures
        s@ == ":tada: Congrats! You are now a graduate of the course: **"@ + course_name@ + "**!"@
            + if participant_role_removed {
            Seq::<char>::empty()
        } else {
            "\n\n<:mminfo:1279517292455264359> An error occurred while attempting to remove the participant role. Please contact server staff to have it manually removed. Your graduate role is unaffected."@
        },
{
    let mut s = String::new();
    push_str(&mut s, ":tada: Congrats! You are now a graduate of the course: **");
    push_str(&mut s, course_name);
    push_str(&mut s, "**!");
    let ghost head = s@;
    if !participant_role_removed {
        push_str(&mut s, "\n\n<:mminfo:1279517292455264359> An error occurred while attempting to remove the participant role. Please contact server staff to have it manually removed. Your graduate role is unaffected.");
    } else {
        assert(s@ =~= head + Seq::<char>::empty());
    }
    s
}

/// The reply when a course name is unknown, suggesting the closest one.
pub fn course_not_found_message(possible_course: Option<&str>) -> (s: String)
    ensures
        s@ == "<:mminfo:1279517292455264359> Course does not exist."@ + match possible_course {
            Some(n) => " Did you mean `"@ + n@ + "`?"@,
            None => Seq::<char>::empty(),
        },
{
    let mut s = String::new();
    push_str(&mut s, "<:mminfo:1279517292455264359> Course does not exist.");
    let ghost head = s@;
    match possible_course {
        Some(n) => {
            push_str(&mut s, " Did you mean `");
            push_str(&mut s, n);
            push_str(&mut s, "`?");
        },
        None => {
            assert(s@ =~= head + Seq::<char>::empty());
        },
    }
    s
}

} // verus!

verus! {

/// The most bookmarks kept by a member who is not a supporter.
pub const BOOKMARK_LIMIT: u64 = 20u64;

/// A member who is not a supporter cannot add a bookmark beyond the limit;
/// the refusal explains how to get more.
pub fn bookmark_refusal(is_supporter: bool, bookmark_count: u64) -> (r: Option<String>)
    ensures
        (!is_supporter && bookmark_count >= BOOKMARK_LIMIT) ==> (r matches Some(t) && t@
            == "<:mminfo:1279517292455264359> Sorry, you've reached the bookmark limit. Please remove one and try again.\n-# Subscription-based supporters can add unlimited bookmarks. [Learn more.](<https://discord.com/channels/244917432383176705/1030424719138246667/1031137243345211413>)"@),
        !(!is_supporter && bookmark_count >= BOOKMARK_LIMIT) ==> r is None,
{
    if !is_supporter && bookmark_count > 19 {
        Some(str_to_string(
            "<:mminfo:1279517292455264359> Sorry, you've reached the bookmark limit. Please remove one and try again.\n-# Subscription-based supporters can add unlimited bookmarks. [Learn more.](<https://discord.com/channels/244917432383176705/1030424719138246667/1031137243345211413>)",
        ))
    } else {
        None
    }
}

/// A bookmark identifier as typed, in upper case, as identifiers are stored.
pub fn bookmark_key(id: &str) -> (s: String)
    ensures
        s@ == id@.map_values(|c: char| ascii_upper(c)),
{
    let v = crate::parse::chars_of(id);
    let mut out: Vec<char> = Vec::new();
    let mut i: usize = 0;
    while i < v.len()
        invariant
            i <= v@.len(),
            v@ == id@,
            out@ == v@.take(i as int).map_values(|c: char| ascii_upper(c)),
        decreases v.len() - i,
    {
        let c = v[i];
        let u = if 'a' <= c && c <= 'z' {
            ((c as u8) - 32) as char
        } else {
            c
        };
        out.push(u);
        assert(out@ =~= v@.take(i as int + 1).map_values(|c: char| ascii_upper(c)));
        i += 1;
    }
    assert(v@.take(v@.len() as int) =~= v@);
    crate::parse::string_of(&out)
}

/// A character in ASCII upper case.
pub open spec fn ascii_upper(c: char) -> char {
    if 'a' <= c <= 'z' {
        ((c as u32) - 32) as char
    } else {
        c
    }
}

} // verus!

verus! {

/// An edit of a course's roles changes nothing when each new role is either
/// not given or the one the course has.
pub open spec fn course_unchanged(new_participant: Option<u64>, new_graduate: Option<u64>, c: Course) -> bool {
    (match new_participant {
        None => true,
        Some(p) => p == c.participant_role,
    }) && (match new_graduate {
        None => true,
        Some(g) => g == c.graduate_role,
    })
}

/// Whether an edit of a course's roles changes nothing (see [`course_unchanged`]).
pub fn no_course_changes(new_participant: Option<u64>, new_graduate: Option<u64>, course: &Course) -> (b: bool)
    ensures
        b == course_unchanged(new_participant, new_graduate, *course),
{
    let p = match new_participant {
        None => true,
        Some(p) => p == course.participant_role,
    };
    let g = match new_graduate {
        None => true,
        Some(g) => g == course.graduate_role,
    };
    p && g
}

/// The roles a course gets from an edit: each new role given, else the one it
/// has.
pub fn edited_course_roles(new_participant: Option<u64>, new_graduate: Option<u64>, course: &Course) -> (r: (u64, u64))
    ensures
        r.0 == match new_participant {
            Some(p) => p,
            None => course.participant_role,
        },
        r.1 == match new_graduate {
            Some(g) => g,
            None => course.graduate_role,
        },
{
    (
        match new_participant {
            Some(p) => p,
            None => course.participant_role,
        },
        match new_graduate {
            Some(g) => g,
            None => course.graduate_role,
        },
    )
}

} // verus!

verus! {

/// The course a member names, the Mindfulness Course unless another is named.
pub fn enrollment_course(name: Option<String>) -> (s: String)
    ensures
        s@ == match name {
            Some(n) => n@,
            None => "Mindfulness Course"@,
        },
{
    match name {
        Some(n) => n,
        None => str_to_string("Mindfulness Course"),
    }
}

/// What joining or leaving a course comes to.
pub enum Enrollment {
    /// Nothing changes; this private note is the answer.
    Refused(String),
    /// The course's participant role is given (joining) or taken (leaving).
    ChangeRole(u64),
}

fn has_id(roles: &Vec<u64>, id: u64) -> (b: bool)
    ensures
        b == roles@.contains(id),
{
    let mut i: usize = 0;
    while i < roles.len()
        invariant
            i <= roles@.len(),
            forall|k: int| 0 <= k < i ==> roles@[k] != id,
        decreases roles.len() - i,
    {
        if roles[i] == id {
            return true;
        }
        i += 1;
    }
    false
}

/// Joining the course `name`: refused to a member enrolled already or
/// graduated; otherwise the participant role is given.
pub fn plan_course_join(name: &str, course: &Course, member_roles: &Vec<u64>) -> (e: Enrollment)
    ensures
        member_roles@.contains(course.participant_role) ==> (e matches Enrollment::Refused(t) && t@
            == "<:mminfo:1279517292455264359> You are already enrolled in the course: **"@ + name@ + "**."@),
        !member_roles@.contains(course.participant_role) && member_roles@.contains(course.graduate_role) ==> (
        e matches Enrollment::Refused(t) && t@ == "<:mminfo:1279517292455264359> You have already completed the course: **"@
            + name@ + "**."@),
        !member_roles@.contains(course.participant_role) && !member_roles@.contains(course.graduate_role) ==> e
            == Enrollment::ChangeRole(course.participant_role),
{
    if has_id(member_roles, course.participant_role) {
        let mut t = String::new();
        push_str(&mut t, "<:mminfo:1279517292455264359> You are already enrolled in the course: **");
        push_str(&mut t, name);
        push_str(&mut t, "**.");
        return Enrollment::Refused(t);
    }
    if has_id(member_roles, course.graduate_role) {
        let mut t = String::new();
        push_str(&mut t, "<:mminfo:1279517292455264359> You have already completed the course: **");
        push_str(&mut t, name);
        push_str(&mut t, "**.");
        return Enrollment::Refused(t);
    }
    Enrollment::ChangeRole(course.participant_role)
}

/// Leaving the course `name`: refused to a member not enrolled; otherwise the
/// participant role is taken.
pub fn plan_course_leave(name: &str, course: &Course, member_roles: &Vec<u64>) -> (e: Enrollment)
    ensures
        !member_roles@.contains(course.participant_role) ==> (e matches Enrollment::Refused(t) && t@
            == "<:mminfo:1279517292455264359> You are not currently enrolled in the course: **"@ + name@ + "**."@),
        member_roles@.contains(course.participant_role) ==> e == Enrollment::ChangeRole(course.participant_role),
{
    if has_id(member_roles, course.participant_role) {
        Enrollment::ChangeRole(course.participant_role)
    } else {
        let mut t = String::new();
        push_str(&mut t, "<:mminfo:1279517292455264359> You are not currently enrolled in the course: **");
        push_str(&mut t, name);
        push_str(&mut t, "**.");
        Enrollment::Refused(t)
    }
}

/// The private note when the course role could not be given (`joining`) or
/// taken.
pub fn course_role_failure(joining: bool) -> (s: String)
    ensures
        s@ == "<:mminfo:1279517292455264359> Failed to "@ + (if joining { "add"@ } else { "remove"@ })
            + " the course role. Please try again or contact staff for assistance."@,
{
    let mut s = String::new();
    push_str(&mut s, "<:mminfo:1279517292455264359> Failed to ");
    if joining {
        push_str(&mut s, "add");
    } else {
        push_str(&mut s, "remove");
    }
    push_str(&mut s, " the course role. Please try again or contact staff for assistance.");
    s
}

/// The welcome of the Mindfulness Course.
pub const MINDFULNESS_WELCOME: &'static str = "You have two options for accessing the course materials.\
    \n\n\
    - If you prefer the Discord environment, you can access the full course directly from \
    the Meditation Mind server: <#1257709248847155240>\n- If you prefer an online course \
    platform, you may enroll and begin your journey on Thinkific: [Getting Started with \
    Mindfulness](<https://meditation-mind.thinkific.com/courses/mindfulness>)\
    \n\n\
    If you decide you would like to opt out of the course-specific channels at a later time, \
    just use the `/course leave` command.\n\nWe hope you find the course helpful!";

/// The welcome embed after joining a course: its title, text and image. Only
/// the Mindfulness Course has one; any other course gets a placeholder.
pub fn course_welcome(name: &str) -> (r: (Option<String>, String, Option<String>))
    ensures
        name@ == "Mindfulness Course"@ ==> (r.0 matches Some(t) && t@ == "Thank you for joining the Mindfulness Course!"@)
            && r.1@ == MINDFULNESS_WELCOME@ && (r.2 matches Some(i) && i@
            == "https://meditationmind.org/wp-content/uploads/2022/01/Meditation_CHallenge_kopie.png"@),
        name@ != "Mindfulness Course"@ ==> r.0 is None && r.1@ == "How did you get here?"@ && r.2 is None,
{
    if str_to_string(name) == str_to_string("Mindfulness Course") {
        (
            Some(str_to_string("Thank you for joining the Mindfulness Course!")),
            str_to_string(MINDFULNESS_WELCOME),
            Some(str_to_string("https://meditationmind.org/wp-content/uploads/2022/01/Meditation_CHallenge_kopie.png")),
        )
    } else {
        (None, str_to_string("How did you get here?"), None)
    }
}

/// The private note after leaving the course `name`.
pub fn course_farewell(name: &str) -> (s: String)
    ensures
        s@ == "You have successfully opted out of the **"@ + name@ + "** course-specific channels.\
          \n\n\
          If you also enrolled on Thinkific and would like to be unenrolled there, please submit \
          a ticket (`/new`) or email us at `info@meditationmind.org` and let us know \
          your Thinkific username or the email address you used to sign up.\
          \n\n\
          We wish you all the best on your journey!"@,
{
    let mut s = String::new();
    push_str(&mut s, "You have successfully opted out of the **");
    push_str(&mut s, name);
    push_str(
        &mut s,
        "** course-specific channels.\
          \n\n\
          If you also enrolled on Thinkific and would like to be unenrolled there, please submit \
          a ticket (`/new`) or email us at `info@meditationmind.org` and let us know \
          your Thinkific username or the email address you used to sign up.\
          \n\n\
          We wish you all the best on your journey!",
    );
    s
}

/// The staff log of a member joining (`joining`) or leaving a course: its
/// title and description.
pub fn enrollment_log(user_id: u64, name: &str, joining: bool) -> (r: (String, String))
    ensures
        r.0@ == (if joining { "New Course Enrollment"@ } else { "Course Withdrawal"@ }),
        r.1@ == "<@"@ + nat_decimal(user_id as nat) + (if joining { "> has opted into the course: **"@ } else {
            "> has opted out of the course: **"@
        }) + name@ + "**"@,
{
    let mut d = String::new();
    push_str(&mut d, "<@");
    push_u64(&mut d, user_id);
    if joining {
        push_str(&mut d, "> has opted into the course: **");
    } else {
        push_str(&mut d, "> has opted out of the course: **");
    }
    push_str(&mut d, name);
    push_str(&mut d, "**");
    (if joining { str_to_string("New Course Enrollment") } else { str_to_string("Course Withdrawal") }, d)
}

} // verus!

verus! {

/// What a retrieved key is reported as: the private reply, and the staff
/// log's description and footer naming who retrieved it.
pub fn key_retrieved(key: &str, author_name: &str, author_id: u64) -> (r: (String, String, String))
    ensures
        r.0@ == "<:mmcheck:1279517233877483601> Key retrieved and marked used: `"@ + key@ + "`"@,
        r.1@ == "**Key**: `"@ + key@ + "`"@,
        r.2@ == "Retrieved by "@ + author_name@ + " ("@ + nat_decimal(author_id as nat) + ")"@,
{
    let mut reply = String::new();
    push_str(&mut reply, "<:mmcheck:1279517233877483601> Key retrieved and marked used: `");
    push_str(&mut reply, key);
    push_str(&mut reply, "`");
    let mut d = String::new();
    push_str(&mut d, "**Key**: `");
    push_str(&mut d, key);
    push_str(&mut d, "`");
    let mut f = String::new();
    push_str(&mut f, "Retrieved by ");
    push_str(&mut f, author_name);
    push_str(&mut f, " (");
    push_u64(&mut f, author_id);
    push_str(&mut f, ")");
    (reply, d, f)
}

} // verus!

verus! {

/// The reply to an update request for a key recipient that needs no
/// confirmation: `None` for a removal, which asks first (see
/// [`removal_prompt`]).
pub open spec fn recipient_update_reply(u: RecipientUpdate) -> Option<Seq<char>> {
    match u {
        RecipientUpdate::NoInput => Some("<:mminfo:1279517292455264359> No input provided. Update aborted."@),
        RecipientUpdate::NeedsKeyCount => Some(
            "<:mminfo:1279517292455264359> No existing record for recipient. Please specify a number of keys to create a new record."@,
        ),
        RecipientUpdate::Add(_) => Some("<:mmcheck:1279517233877483601> Recipient has been added to the database."@),
        RecipientUpdate::ConfirmRemoval => None,
        RecipientUpdate::Update(_) => Some("<:mmcheck:1279517233877483601> Recipient has been updated."@),
    }
}

/// The reply to an update request (see [`recipient_update_reply`]). A new or
/// changed record is committed before the reply; the other replies leave the
/// database unchanged.
pub fn update_reply(u: &RecipientUpdate) -> (s: Option<String>)
    ensures
        match recipient_update_reply(*u) {
            Some(t) => s matches Some(x) && x@ == t,
            None => s is None,
        },
{
    match u {
        RecipientUpdate::NoInput => Some(str_to_string("<:mminfo:1279517292455264359> No input provided. Update aborted.")),
        RecipientUpdate::NeedsKeyCount => Some(
            str_to_string(
                "<:mminfo:1279517292455264359> No existing record for recipient. Please specify a number of keys to create a new record.",
            ),
        ),
        RecipientUpdate::Add(_) => Some(str_to_string("<:mmcheck:1279517233877483601> Recipient has been added to the database.")),
        RecipientUpdate::ConfirmRemoval => None,
        RecipientUpdate::Update(_) => Some(str_to_string("<:mmcheck:1279517233877483601> Recipient has been updated.")),
    }
}

/// The question asked before removing the recipient `user_id`.
pub fn removal_prompt(user_id: u64) -> (s: String)
    ensures
        s@ == "Are you sure you want to remove "@ + user_mention(user_id) + " from the recipient database?"@,
{
    let mut s = String::new();
    push_str(&mut s, "Are you sure you want to remove ");
    push_user_mention(&mut s, user_id);
    push_str(&mut s, " from the recipient database?");
    s
}

/// The exchange confirming a recipient's removal, asked by the interaction
/// `interaction_id`: `Yes` answers `Confirmed.` and commits the removal, `No`
/// answers `Cancelled.` and waits on, and a minute without a press drops the
/// removal.
pub fn removal_dialog(interaction_id: u64) -> (d: crate::dialog::ConfirmDialog<String>)
    ensures
        d@.confirm_id == crate::common::button_id(interaction_id, "confirm"@),
        d@.cancel_id == crate::common::button_id(interaction_id, "cancel"@),
        d@.confirmed_text == "<:mmcheck:1279517233877483601> Confirmed."@,
        d@.cancelled_text == "<:mmx:1279517275749089290> Cancelled."@,
{
    crate::dialog::ConfirmDialog {
        confirm_id: crate::dialog::button_id_text(interaction_id, "confirm"),
        cancel_id: crate::dialog::button_id_text(interaction_id, "cancel"),
        confirmed_text: str_to_string("<:mmcheck:1279517233877483601> Confirmed."),
        cancelled_text: str_to_string("<:mmx:1279517275749089290> Cancelled."),
    }
}

} // verus!

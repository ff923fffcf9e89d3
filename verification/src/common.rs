//! Shared pieces: reply visibility, query results of one value, moving a
//! member's data to another account, refreshing materialised views, and
//! reading identifiers stored as text.
use vstd::prelude::*;
use crate::parse::{
    chars_of, digits_value, first_word, first_word_of, is_digit, parse_u64, parsed_u64, string_of,
    unsigned_digits,
};
use crate::text::digit_char;
use crate::text::{nat_decimal, push_str, push_u64, str_to_string, u64_to_string};
use crate::time::Timeframe;
use crate::tracking_profile::Privacy;

verus! {

/// Who sees a reply.
#[derive(Debug, Clone, Copy, PartialEq, Eq, Structural)]
pub enum Visibility {
    Public,
    Ephemeral,
}

/// The visibility a privacy setting asks for: private data is shown ephemerally.
pub open spec fn visibility_of(privacy: Privacy) -> Visibility {
    match privacy {
        Privacy::Private => Visibility::Ephemeral,
        Privacy::Public => Visibility::Public,
    }
}

impl From<Privacy> for Visibility {
    /// [`Privacy::Private`] gives [`Visibility::Ephemeral`], [`Privacy::Public`]
    /// gives [`Visibility::Public`].
    fn from(privacy: Privacy) -> (v: Visibility) {
        match privacy {
            Privacy::Private => Visibility::Ephemeral,
            Privacy::Public => Visibility::Public,
        }
    }
}

impl vstd::std_specs::convert::FromSpecImpl<Privacy> for Visibility {
    open spec fn obeys_from_spec() -> bool {
        true
    }

    open spec fn from_spec(v: Privacy) -> Visibility {
        visibility_of(v)
    }
}

/// A registered application command: its name and identifier.
pub struct MinimalCommand {
    pub name: String,
    pub id: u64,
}

/// The result of an `EXISTS` query.
#[derive(Debug, Clone, Copy, PartialEq, Eq, Structural, Default)]
pub struct Exists {
    pub exists: bool,
}

/// The count and sum of an aggregate query.
#[derive(Debug, Clone, Copy, PartialEq, Eq, Structural, Default)]
pub struct Aggregate {
    pub count: u64,
    pub sum: i64,
}

/// What a migration moves to another account.
#[derive(Debug, Clone, Copy, PartialEq, Eq, Structural)]
pub enum MigrationType {
    TrackingProfile,
    MeditationEntries,
}

/// Moving a member's data in a guild from one account to another.
#[derive(Debug, Clone, Copy, PartialEq, Eq, Structural)]
pub struct Migration {
    pub guild: u64,
    pub old_user: u64,
    pub new_user: u64,
    pub kind: MigrationType,
}

/// A statement with its text parameters in order (`$1`, `$2`, ...).
pub struct Statement {
    pub sql: String,
    pub binds: Vec<String>,
}

/// The update a migration runs: the old account as `$1`, the guild as `$2`
/// and the new account as `$3`.
pub open spec fn migration_sql(kind: MigrationType) -> Seq<char> {
    match kind {
        MigrationType::TrackingProfile => "UPDATE tracking_profile SET user_id = $3 WHERE user_id = $1 AND guild_id = $2"@,
        MigrationType::MeditationEntries => "UPDATE meditation SET user_id = $3 WHERE user_id = $1 AND guild_id = $2"@,
    }
}

impl Migration {
    /// A migration of a member's data in a guild.
    pub fn new(guild_id: u64, old_user_id: u64, new_user_id: u64, kind: MigrationType) -> (m:
        Migration)
        ensures
            m == (Migration { guild: guild_id, old_user: old_user_id, new_user: new_user_id, kind }),
    {
        Migration { guild: guild_id, old_user: old_user_id, new_user: new_user_id, kind }
    }

    /// The statement that performs the migration, with the identifiers as text.
    pub fn update_query(&self) -> (q: Statement)
        ensures
            q.sql@ == migration_sql(self.kind),
            q.binds@.len() == 3,
            q.binds@[0]@ == nat_decimal(self.old_user as nat),
            q.binds@[1]@ == nat_decimal(self.guild as nat),
            q.binds@[2]@ == nat_decimal(self.new_user as nat),
    {
        let sql = match self.kind {
            MigrationType::TrackingProfile => str_to_string(
                "UPDATE tracking_profile SET user_id = $3 WHERE user_id = $1 AND guild_id = $2",
            ),
            MigrationType::MeditationEntries => str_to_string(
                "UPDATE meditation SET user_id = $3 WHERE user_id = $1 AND guild_id = $2",
            ),
        };
        let mut binds: Vec<String> = Vec::new();
        binds.push(u64_to_string(self.old_user));
        binds.push(u64_to_string(self.guild));
        binds.push(u64_to_string(self.new_user));
        Statement { sql, binds }
    }
}

/// The materialised views of the database.
pub struct MaterializedView {}

/// The kinds of materialised view.
#[derive(Debug, Clone, Copy, PartialEq, Eq, Structural)]
pub enum ViewType {
    Leaderboard,
    ChartStats,
}

/// Whether a view of that kind exists for that period (chart data is not kept
/// per day).
pub open spec fn view_exists(view_type: ViewType, timeframe: Timeframe) -> bool {
    !(view_type == ViewType::ChartStats && timeframe == Timeframe::Daily)
}

/// The statement that refreshes a view; leaderboards are refreshed concurrently.
pub open spec fn refresh_sql(view_type: ViewType, timeframe: Timeframe) -> Seq<char> {
    match view_type {
        ViewType::Leaderboard => match timeframe {
            Timeframe::Yearly => "REFRESH MATERIALIZED VIEW CONCURRENTLY yearly_leaderboard"@,
            Timeframe::Monthly => "REFRESH MATERIALIZED VIEW CONCURRENTLY monthly_leaderboard"@,
            Timeframe::Weekly => "REFRESH MATERIALIZED VIEW CONCURRENTLY weekly_leaderboard"@,
            Timeframe::Daily => "REFRESH MATERIALIZED VIEW CONCURRENTLY daily_leaderboard"@,
        },
        ViewType::ChartStats => match timeframe {
            Timeframe::Yearly => "REFRESH MATERIALIZED VIEW yearly_data"@,
            Timeframe::Monthly => "REFRESH MATERIALIZED VIEW monthly_data"@,
            Timeframe::Weekly => "REFRESH MATERIALIZED VIEW weekly_data"@,
            Timeframe::Daily => Seq::empty(),
        },
    }
}

impl MaterializedView {
    /// The statement that refreshes the view of a kind and period.
    pub fn refresh(view_type: ViewType, timeframe: Timeframe) -> (sql: &'static str)
        requires
            view_exists(view_type, timeframe),
        ensures
            sql@ == refresh_sql(view_type, timeframe),
    {
        match view_type {
            ViewType::Leaderboard => match timeframe {
                Timeframe::Yearly => "REFRESH MATERIALIZED VIEW CONCURRENTLY yearly_leaderboard",
                Timeframe::Monthly => "REFRESH MATERIALIZED VIEW CONCURRENTLY monthly_leaderboard",
                Timeframe::Weekly => "REFRESH MATERIALIZED VIEW CONCURRENTLY weekly_leaderboard",
                Timeframe::Daily => "REFRESH MATERIALIZED VIEW CONCURRENTLY daily_leaderboard",
            },
            ViewType::ChartStats => match timeframe {
                Timeframe::Yearly => "REFRESH MATERIALIZED VIEW yearly_data",
                Timeframe::Monthly => "REFRESH MATERIALIZED VIEW monthly_data",
                Timeframe::Weekly => "REFRESH MATERIALIZED VIEW weekly_data",
                Timeframe::Daily => vstd::pervasive::unreached(),
            },
        }
    }
}

/// A stored identifier that is not a decimal `u64`, with the column it came from.
pub struct ColumnDecodeError {
    pub index: String,
}

/// The identifier stored in a column; a missing value reads as `1`, text that
/// is not a `u64` is an error naming the column.
pub fn decode_id_row(value: Option<&str>, index: &str) -> (r: Result<u64, ColumnDecodeError>)
    ensures
        match value {
            Some(v) => match parsed_u64(v@) {
                Some(id) => r matches Ok(x) && x == id,
                None => r matches Err(e) && e.index@ == index@,
            },
            None => r matches Ok(x) && x == 1,
        },
{
    match value {
        Some(v) => {
            let chars = chars_of(v);
            match parse_u64(&chars) {
                Some(id) => Ok(id),
                None => Err(ColumnDecodeError { index: str_to_string(index) }),
            }
        },
        None => Ok(1),
    }
}

/// The optional identifier stored in a column; a missing value is `None`, text
/// that is not a `u64` is an error naming the column.
pub fn decode_option_id_row(value: Option<&str>, index: &str) -> (r: Result<
    Option<u64>,
    ColumnDecodeError,
>)
    ensures
        match value {
            Some(v) => match parsed_u64(v@) {
                Some(id) => r matches Ok(x) && x == Some(id),
                None => r matches Err(e) && e.index@ == index@,
            },
            None => r matches Ok(x) && x is None,
        },
{
    match value {
        Some(v) => {
            let chars = chars_of(v);
            match parse_u64(&chars) {
                Some(id) => Ok(Some(id)),
                None => Err(ColumnDecodeError { index: str_to_string(index) }),
            }
        },
        None => Ok(None),
    }
}

/// The top-level command of a command line: its first word, or the whole
/// text when it has none.
pub open spec fn parent_command(name: Seq<char>) -> Seq<char> {
    match first_word(name) {
        Some(w) => w,
        None => name,
    }
}

/// The names of registered commands.
pub open spec fn command_names(commands: Seq<MinimalCommand>) -> Seq<Seq<char>> {
    commands.map_values(|c: MinimalCommand| c.name@)
}

/// The identifier of the first command named `target`, if any.
pub open spec fn first_named_id(cs: Seq<MinimalCommand>, target: Seq<char>) -> Option<u64>
    decreases cs.len(),
{
    if cs.len() == 0 {
        None
    } else if cs[0].name@ == target {
        Some(cs[0].id)
    } else {
        first_named_id(cs.drop_first(), target)
    }
}

/// How a command is written in a message: a clickable mention `</name:id>`
/// with the identifier of the first registered command named like its parent,
/// or `` `/name` `` when none is registered (or the list is not available).
pub open spec fn command_mention(commands: Option<Seq<MinimalCommand>>, name: Seq<char>) -> Seq<char> {
    let found = match commands {
        Some(cs) => first_named_id(cs, parent_command(name)),
        None => None,
    };
    match found {
        Some(id) => "</"@ + name + ":"@ + nat_decimal(id as nat) + ">"@,
        None => "`/"@ + name + "`"@,
    }
}

/// Writes a command for a message (see [`command_mention`]).
pub fn print_command(commands: Option<&Vec<MinimalCommand>>, command_name: &str) -> (s: String)
    ensures
        s@ == command_mention(
            match commands {
                Some(c) => Some(c@),
                None => None,
            },
            command_name@,
        ),
{
    let mut fallback = String::new();
    push_str(&mut fallback, "`/");
    push_str(&mut fallback, command_name);
    push_str(&mut fallback, "`");
    match commands {
        None => fallback,
        Some(cs) => {
            let chars = chars_of(command_name);
            let parent = match first_word_of(&chars) {
                Some(w) => string_of(&w),
                None => str_to_string(command_name),
            };
            let ghost target = parent_command(command_name@);
            assert(parent@ == target);
            let mut i: usize = 0;
            assert(cs@.skip(0) =~= cs@);
            while i < cs.len()
                invariant
                    i <= cs@.len(),
                    parent@ == target,
                    target == parent_command(command_name@),
                    first_named_id(cs@, target) == first_named_id(cs@.skip(i as int), target),
                    commands == Some(cs),
                decreases cs.len() - i,
            {
                if cs[i].name == parent {
                    let mut s = String::new();
                    push_str(&mut s, "</");
                    push_str(&mut s, command_name);
                    push_str(&mut s, ":");
                    push_u64(&mut s, cs[i].id);
                    push_str(&mut s, ">");
                    proof {
                        assert(cs@.skip(i as int)[0] == cs@[i as int]);
                        assert(s@ =~= "</"@ + command_name@ + ":"@ + nat_decimal(cs@[i as int].id as nat) + ">"@);
                    }
                    return s;
                }
                assert(cs@.skip(i as int).drop_first() =~= cs@.skip(i as int + 1));
                i += 1;
            }
            fallback
        },
    }
}

/// The identifier of a button: the interaction's identifier followed by the
/// button's name.
pub open spec fn button_id(ctx_id: u64, name: Seq<char>) -> Seq<char> {
    nat_decimal(ctx_id as nat) + name
}

/// The answer a pressed button gives: `Some(true)` to go ahead, `Some(false)`
/// to cancel, `None` for an unrelated button.
pub fn confirm_answer(custom_id: &str, ctx_id: u64) -> (a: Option<bool>)
    ensures
        a == (if custom_id@ == button_id(ctx_id, "confirm"@) {
            Some(true)
        } else if custom_id@ == button_id(ctx_id, "cancel"@) {
            Some(false)
        } else {
            None
        }),
{
    let id = str_to_string(custom_id);
    let mut confirm = String::new();
    push_u64(&mut confirm, ctx_id);
    push_str(&mut confirm, "confirm");
    let mut cancel = String::new();
    push_u64(&mut cancel, ctx_id);
    push_str(&mut cancel, "cancel");
    if id == confirm {
        Some(true)
    } else if id == cancel {
        Some(false)
    } else {
        None
    }
}

proof fn lemma_decimal_is_digits(n: nat)
    ensures
        nat_decimal(n).len() > 0,
        forall|i: int| 0 <= i < nat_decimal(n).len() ==> is_digit(#[trigger] nat_decimal(n)[i]),
        digits_value(nat_decimal(n)) == n,
    decreases n,
{
    let d = nat_decimal(n);
    if n < 10 {
        assert(d.drop_last() =~= Seq::<char>::empty());
        assert(digit_char(n) as int == n + 48);
        assert(d.last() == digit_char(n));
        assert(digits_value(d) == digits_value(d.drop_last()) * 10 + (d.last() as int - 48));
    } else {
        lemma_decimal_is_digits(n / 10);
        assert(d.drop_last() =~= nat_decimal(n / 10));
        assert(digit_char(n % 10) as int == n % 10 + 48);
        assert(d.last() == digit_char(n % 10));
        assert(digits_value(d) == digits_value(d.drop_last()) * 10 + (d.last() as int - 48));
        assert((n / 10) * 10 + n % 10 == n);
        assert forall|i: int| 0 <= i < d.len() implies is_digit(#[trigger] d[i]) by {
            if i < d.len() - 1 {
                assert(d[i] == nat_decimal(n / 10)[i]);
            }
        }
    }
}

/// An identifier stored as its decimal text reads back as the same identifier:
/// [`decode_id_row`] undoes the rendering of `u64::to_string`.
pub proof fn lemma_id_text_round_trip(n: u64)
    ensures
        parsed_u64(nat_decimal(n as nat)) == Some(n),
{
    let d = nat_decimal(n as nat);
    lemma_decimal_is_digits(n as nat);
    assert(is_digit(d[0]));
    assert(unsigned_digits(d) == d);
}

} // verus!

verus! {

/// Whether a member's roles hold `role`; an unknown member holds none.
pub open spec fn holds_role(member_roles: Option<Seq<u64>>, role: u64) -> bool {
    match member_roles {
        Some(r) => r.contains(role),
        None => false,
    }
}

/// Supporters are the members with the Patreon, Ko-fi or staff role.
pub open spec fn supporter(member_roles: Option<Seq<u64>>) -> bool {
    holds_role(member_roles, 543900027928444935u64) || holds_role(member_roles, 1083219974509826048u64)
        || holds_role(member_roles, 788760128010059786u64)
}

fn contains_role(roles: &Vec<u64>, role: u64) -> (b: bool)
    ensures
        b == roles@.contains(role),
{
    let mut i: usize = 0;
    while i < roles.len()
        invariant
            i <= roles@.len(),
            forall|k: int| 0 <= k < i ==> roles@[k] != role,
        decreases roles.len() - i,
    {
        if roles[i] == role {
            return true;
        }
        i += 1;
    }
    false
}

/// Whether the member, by its roles (`None` when the member could not be
/// fetched), has `role`.
pub fn has_role(member_roles: Option<&Vec<u64>>, role: crate::config::Role) -> (b: bool)
    ensures
        b == holds_role(
            match member_roles {
                Some(r) => Some(r@),
                None => None,
            },
            role.0,
        ),
{
    match member_roles {
        Some(r) => contains_role(r, role.0),
        None => false,
    }
}

/// Whether the member, by its roles (`None` when the member could not be
/// fetched), is a supporter (see [`supporter`]).
pub fn is_supporter(member_roles: Option<&Vec<u64>>) -> (b: bool)
    ensures
        b == supporter(
            match member_roles {
                Some(r) => Some(r@),
                None => None,
            },
        ),
{
    let r = crate::config::roles();
    has_role(member_roles, r.patreon) || has_role(member_roles, r.kofi) || has_role(member_roles, r.staff)
}

/// The private note when a command needs a role the member lacks.
pub fn missing_role_notice(role: crate::config::Role) -> (s: String)
    ensures
        s@ == "<:mminfo:1279517292455264359> This command requires the "@ + "<@&"@ + nat_decimal(role.0 as nat)
            + ">"@ + " role."@,
{
    let mut s = String::new();
    push_str(&mut s, "<:mminfo:1279517292455264359> This command requires the ");
    let r = role.to_string();
    push_str(&mut s, r.as_str());
    push_str(&mut s, " role.");
    s
}

/// The result of a command check on a role: passed, or the notice to send.
pub fn role_check(member_roles: Option<&Vec<u64>>, role: crate::config::Role) -> (r: Result<(), String>)
    ensures
        holds_role(
            match member_roles {
                Some(x) => Some(x@),
                None => None,
            },
            role.0,
        ) ==> r is Ok,
        !holds_role(
            match member_roles {
                Some(x) => Some(x@),
                None => None,
            },
            role.0,
        ) ==> (r matches Err(t) && t@ == "<:mminfo:1279517292455264359> This command requires the "@ + "<@&"@
            + nat_decimal(role.0 as nat) + ">"@ + " role."@),
{
    if has_role(member_roles, role) {
        Ok(())
    } else {
        Err(missing_role_notice(role))
    }
}

} // verus!

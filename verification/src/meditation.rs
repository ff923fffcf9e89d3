//! A meditation session as stored: who, where, how long and when.
use vstd::prelude::*;
use crate::datetime::{Instant, format_utc, utc_format};
use crate::ids::{is_ulid_char_upper, new_ulid_string};
use crate::pagination::PageEmbed;
use crate::text::{int_decimal, nat_decimal, push_i64, push_str, push_u64, str_to_string};

verus! {

/// A stored meditation session.
pub struct Meditation {
    pub id: String,
    pub guild_id: u64,
    pub user_id: u64,
    pub minutes: i32,
    pub seconds: i32,
    pub occurred_at: Instant,
}

/// `minute` or `minutes`, as the count requires.
pub open spec fn unit(n: int, singular: Seq<char>, plural: Seq<char>) -> Seq<char> {
    if n == 1 {
        singular
    } else {
        plural
    }
}

/// The list title of a session: minutes, and seconds when there are any.
pub open spec fn meditation_title(minutes: int, seconds: int) -> Seq<char> {
    if seconds > 0 {
        int_decimal(minutes) + " "@ + unit(minutes, "minute"@, "minutes"@) + " "@ + int_decimal(
            seconds,
        ) + " "@ + unit(seconds, "second"@, "seconds"@)
    } else {
        int_decimal(minutes) + " "@ + unit(minutes, "minute"@, "minutes"@)
    }
}

impl Meditation {
    /// A new session with a freshly generated identifier.
    pub fn new(guild_id: u64, user_id: u64, minutes: i32, seconds: i32, datetime: Instant) -> (m:
        Meditation)
        ensures
            m.guild_id == guild_id && m.user_id == user_id && m.minutes == minutes && m.seconds
                == seconds && m.occurred_at == datetime,
            m.id@.len() == 26,
            forall|i: int| 0 <= i < m.id@.len() ==> is_ulid_char_upper(#[trigger] m.id@[i]),
    {
        Meditation {
            id: new_ulid_string(),
            guild_id,
            user_id,
            minutes,
            seconds,
            occurred_at: datetime,
        }
    }

    /// The same session with new duration and time; identifier, guild and member are kept.
    pub fn with_new(&self, minutes: i32, seconds: i32, datetime: Instant) -> (m: Meditation)
        ensures
            m.id@ == self.id@ && m.guild_id == self.guild_id && m.user_id == self.user_id
                && m.minutes == minutes && m.seconds == seconds && m.occurred_at == datetime,
    {
        Meditation {
            id: self.id.clone(),
            guild_id: self.guild_id,
            user_id: self.user_id,
            minutes,
            seconds,
            occurred_at: datetime,
        }
    }

    /// The list title: `N minutes` or `N minutes M seconds`, singular where the count is 1.
    pub fn title(&self) -> (t: String)
        ensures
            t@ == meditation_title(self.minutes as int, self.seconds as int),
    {
        let mut t = String::new();
        push_i64(&mut t, self.minutes as i64);
        push_str(&mut t, " ");
        if self.minutes == 1 {
            push_str(&mut t, "minute");
        } else {
            push_str(&mut t, "minutes");
        }
        if self.seconds > 0 {
            push_str(&mut t, " ");
            push_i64(&mut t, self.seconds as i64);
            push_str(&mut t, " ");
            if self.seconds == 1 {
                push_str(&mut t, "second");
            } else {
                push_str(&mut t, "seconds");
            }
        }
        t
    }

    /// The list body: the date and the identifier; `None` when the date cannot be rendered.
    pub fn body(&self) -> (b: Option<String>)
        ensures
            match utc_format(self.occurred_at.secs, self.occurred_at.nanos, "%Y-%m-%d %H:%M"@) {
                Some(d) => b matches Some(s) && s@ == "Date: `"@ + d + "`\nID: `"@ + self.id@
                    + "`"@,
                None => b is None,
            },
    {
        match format_utc(self.occurred_at, "%Y-%m-%d %H:%M") {
            Some(d) => {
                let mut s = String::new();
                push_str(&mut s, "Date: `");
                push_str(&mut s, d.as_str());
                push_str(&mut s, "`\nID: `");
                push_str(&mut s, self.id.as_str());
                push_str(&mut s, "`");
                Some(s)
            },
            None => None,
        }
    }
}

/// Why an entry cannot be removed.
#[derive(Debug, Clone, Copy, PartialEq, Eq, Structural)]
pub enum RemovalProblem {
    NotFound,
    NotOwner,
}

/// Whether the member `invoker` may remove the entry looked up (none found
/// when `None`): only their own.
pub fn check_removal(entry: Option<&Meditation>, invoker: u64) -> (r: Result<(), RemovalProblem>)
    ensures
        match entry {
            None => r == Err::<(), RemovalProblem>(RemovalProblem::NotFound),
            Some(e) => if e.user_id == invoker {
                r is Ok
            } else {
                r == Err::<(), RemovalProblem>(RemovalProblem::NotOwner)
            },
        },
{
    match entry {
        None => Err(RemovalProblem::NotFound),
        Some(e) => if e.user_id == invoker {
            Ok(())
        } else {
            Err(RemovalProblem::NotOwner)
        },
    }
}

/// The reply when no entry has the identifier; `recent` is how the command
/// listing entries is written.
pub fn entry_not_found_message(recent: &str) -> (s: String)
    ensures
        s@ == "<:mminfo:1279517292455264359> No entry found with that ID.\n-# Use "@ + recent@
            + " to view a list of your entries and their IDs."@,
{
    let mut s = String::new();
    push_str(&mut s, "<:mminfo:1279517292455264359> No entry found with that ID.\n-# Use ");
    push_str(&mut s, recent);
    push_str(&mut s, " to view a list of your entries and their IDs.");
    s
}

/// The log entry for a removed session; `None` when its date cannot be rendered.
pub fn removal_log(entry: &Meditation, author_name: &str, author_id: u64) -> (l: Option<PageEmbed>)
    ensures
        match utc_format(entry.occurred_at.secs, entry.occurred_at.nanos, "%B %d, %Y"@) {
            None => l is None,
            Some(date) => {
                &&& l is Some
                &&& l->0.title@ == "Meditation Entry Removed"@
                &&& l->0.description@ == "**User**: <@"@ + nat_decimal(author_id as nat)
                    + ">\n**ID**: "@ + entry.id@ + "\n**Date**: "@ + date + "\n**Time**: "@
                    + int_decimal(entry.minutes as int) + " minute(s)"@ + if entry.seconds > 0 {
                    " "@ + int_decimal(entry.seconds as int) + " second(s)"@
                } else {
                    Seq::<char>::empty()
                }
                &&& l->0.fields@.len() == 0
                &&& l->0.footer matches Some(f) && f@ == "Removed by "@ + author_name@ + " ("@
                    + nat_decimal(author_id as nat) + ")"@
            },
        },
{
    let date = match format_utc(entry.occurred_at, "%B %d, %Y") {
        Some(d) => d,
        None => return None,
    };
    let mut d = String::new();
    push_str(&mut d, "**User**: <@");
    push_u64(&mut d, author_id);
    push_str(&mut d, ">\n**ID**: ");
    push_str(&mut d, entry.id.as_str());
    push_str(&mut d, "\n**Date**: ");
    push_str(&mut d, date.as_str());
    push_str(&mut d, "\n**Time**: ");
    push_i64(&mut d, entry.minutes as i64);
    push_str(&mut d, " minute(s)");
    let ghost head = d@;
    if entry.seconds > 0 {
        push_str(&mut d, " ");
        push_i64(&mut d, entry.seconds as i64);
        push_str(&mut d, " second(s)");
    } else {
        assert(d@ =~= head + Seq::<char>::empty());
    }
    let mut f = String::new();
    push_str(&mut f, "Removed by ");
    push_str(&mut f, author_name);
    push_str(&mut f, " (");
    push_u64(&mut f, author_id);
    push_str(&mut f, ")");
    Some(PageEmbed { title: str_to_string("Meditation Entry Removed"), description: d, fields: Vec::new(), footer: Some(f) })
}

} // verus!

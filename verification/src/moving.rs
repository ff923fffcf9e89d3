//! Moving messages to another channel or to a new public thread: where they
//! go, under which thread name, in which order, and what the moderator and
//! the channel are told.
use vstd::prelude::*;
use crate::parse::{chars_of, string_of};
use crate::rows::{push_user_mention, user_mention};
use crate::text::{nat_decimal, push_str, push_u64};

verus! {

/// Where the messages go.
#[derive(Debug, Clone, Copy, PartialEq, Eq, Structural)]
pub enum MoveTarget {
    /// An existing channel or thread, chosen by the moderator.
    ExistingChannel,
    /// A new public thread started from the first message.
    NewPublicThread,
}

/// What a move request comes to.
pub enum MovePlan {
    /// Nothing is moved; the moderator is told why.
    Refused(String),
    /// The messages go to this channel, the first one included.
    ToChannel(u64),
    /// A thread under this name is started from the first message, and the
    /// following messages go into it.
    NewThread(String),
}

/// How Discord renders a mention of a channel.
pub open spec fn channel_mention(id: u64) -> Seq<char> {
    "<#"@ + nat_decimal(id as nat) + ">"@
}

/// The position of the last space.
pub open spec fn last_space(s: Seq<char>) -> Option<int>
    decreases s.len(),
{
    if s.len() == 0 {
        None
    } else if s.last() == ' ' {
        Some(s.len() - 1)
    } else {
        last_space(s.drop_last())
    }
}

/// The longest a thread name taken from a message runs before it is cut.
pub const THREAD_NAME_CHARS: usize = 40usize;

/// The name of a thread started from a message: its text, or, when longer
/// than forty characters, the first forty cut back to the last space in them,
/// followed by an ellipsis.
pub open spec fn thread_name(content: Seq<char>) -> Seq<char> {
    if content.len() > THREAD_NAME_CHARS {
        let short = content.take(THREAD_NAME_CHARS as int);
        (match last_space(short) {
            Some(i) => short.take(i),
            None => short,
        }) + "..."@
    } else {
        content
    }
}

proof fn lemma_last_space_below(s: Seq<char>)
    ensures
        last_space(s) matches Some(i) ==> 0 <= i < s.len(),
    decreases s.len(),
{
    if s.len() > 0 {
        lemma_last_space_below(s.drop_last());
    }
}

/// The name of a thread started from a message (see [`thread_name`]).
pub fn make_thread_name(content: &str) -> (name: String)
    ensures
        name@ == thread_name(content@),
{
    let v = chars_of(content);
    if v.len() <= THREAD_NAME_CHARS {
        return string_of(&v);
    }
    let ghost short = v@.take(THREAD_NAME_CHARS as int);
    let mut last: Option<usize> = None;
    let mut i: usize = 0;
    while i < THREAD_NAME_CHARS
        invariant
            i <= THREAD_NAME_CHARS < v@.len(),
            short == v@.take(THREAD_NAME_CHARS as int),
            match last {
                Some(k) => last_space(v@.take(i as int)) == Some(k as int),
                None => last_space(v@.take(i as int)) is None,
            },
        decreases THREAD_NAME_CHARS - i,
    {
        assert(v@.take(i as int + 1).drop_last() =~= v@.take(i as int));
        if v[i] == ' ' {
            last = Some(i);
        }
        i += 1;
    }
    let end: usize = match last {
        Some(k) => k,
        None => THREAD_NAME_CHARS,
    };
    proof {
        lemma_last_space_below(short);
    }
    let mut out: Vec<char> = Vec::new();
    let mut j: usize = 0;
    while j < end
        invariant
            j <= end <= THREAD_NAME_CHARS < v@.len(),
            out@ == v@.take(j as int),
        decreases end - j,
    {
        out.push(v[j]);
        assert(out@ =~= v@.take(j as int + 1));
        j += 1;
    }
    out.push('.');
    out.push('.');
    out.push('.');
    let name = string_of(&out);
    proof {
        reveal_strlit("...");
        assert(short.take(end as int) =~= v@.take(end as int));
        assert(name@ =~= thread_name(content@));
    }
    name
}

/// What a move request comes to: an existing channel must be chosen, and a
/// new thread needs at least one message after the first; a missing count is
/// none.
pub open spec fn move_plan(target: MoveTarget, channel: Option<u64>, number: Option<u8>, content: Seq<char>, p: MovePlan) -> bool {
    let n = match number {
        Some(n) => n,
        None => 0u8,
    };
    match target {
        MoveTarget::ExistingChannel => match channel {
            Some(c) => p == MovePlan::ToChannel(c),
            None => p matches MovePlan::Refused(t)
                && t@ == "<:mmx:1279517275749089290> No existing channel or thread was selected."@,
        },
        MoveTarget::NewPublicThread => if n < 1 {
            p matches MovePlan::Refused(t)
                && t@ == "<:mmx:1279517275749089290> Must specify additional messages to create a thread."@
        } else {
            p matches MovePlan::NewThread(name) && name@ == thread_name(content)
        },
    }
}

/// Decides where a move goes (see [`move_plan`]); `first_content` is the text
/// of the first message.
pub fn plan_move(target: MoveTarget, channel: Option<u64>, number: Option<u8>, first_content: &str) -> (p: MovePlan)
    ensures
        move_plan(target, channel, number, first_content@, p),
{
    let n: u8 = match number {
        Some(n) => n,
        None => 0,
    };
    match target {
        MoveTarget::ExistingChannel => match channel {
            Some(c) => MovePlan::ToChannel(c),
            None => {
                let mut t = String::new();
                push_str(&mut t, "<:mmx:1279517275749089290> No existing channel or thread was selected.");
                MovePlan::Refused(t)
            },
        },
        MoveTarget::NewPublicThread => {
            if n < 1 {
                let mut t = String::new();
                push_str(&mut t, "<:mmx:1279517275749089290> Must specify additional messages to create a thread.");
                MovePlan::Refused(t)
            } else {
                MovePlan::NewThread(make_thread_name(first_content))
            }
        },
    }
}

/// The messages to move, oldest first: the first message alone when no more
/// are asked for; else the following ones (fetched newest first) and, when
/// moving to an existing channel, the first one before them.
pub open spec fn move_order<T>(first: T, following_newest_first: Seq<T>, number: u8, move_original: bool) -> Seq<T> {
    if number == 0 {
        seq![first]
    } else if move_original {
        following_newest_first.push(first).reverse()
    } else {
        following_newest_first.reverse()
    }
}

/// The messages to move, oldest first (see [`move_order`]).
pub fn order_moved<T>(first: T, following_newest_first: Vec<T>, number: u8, move_original: bool) -> (v: Vec<T>)
    ensures
        v@ == move_order(first, following_newest_first@, number, move_original),
{
    if number == 0 {
        let mut v: Vec<T> = Vec::new();
        v.push(first);
        assert(v@ =~= seq![first]);
        return v;
    }
    let mut all = following_newest_first;
    if move_original {
        all.push(first);
    }
    let ghost whole = all@;
    let mut v: Vec<T> = Vec::new();
    while all.len() > 0
        invariant
            all@ == whole.take(all@.len() as int),
            all@.len() <= whole.len(),
            v@ == whole.reverse().take(whole.len() - all@.len()),
        decreases all.len(),
    {
        let x = all.pop().unwrap();
        v.push(x);
        assert(v@ =~= whole.reverse().take(whole.len() - all@.len()));
        assert(all@ =~= whole.take(all@.len() as int));
    }
    assert(v@ =~= whole.reverse());
    v
}

/// The line posted before a moved message, tagging its author.
pub fn from_line(author_id: u64) -> (s: String)
    ensures
        s@ == "From "@ + user_mention(author_id) + ":"@,
{
    let mut s = String::new();
    push_str(&mut s, "From ");
    push_user_mention(&mut s, author_id);
    push_str(&mut s, ":");
    s
}

/// What happens to one message of a move.
pub enum MoveStep {
    /// It is not an ordinary message: it stays, and the moderator is told.
    Skip(String),
    /// It is forwarded after this line tagging its author, then deleted.
    Forward(String),
}

/// One message of a move: an ordinary message is forwarded and counted; any
/// other kind is skipped with a notice that links it.
pub fn move_step(moved: u64, is_regular: bool, author_id: u64, link: &str) -> (r: (u64, MoveStep))
    requires
        moved < u64::MAX,
    ensures
        is_regular ==> r.0 == moved + 1 && (r.1 matches MoveStep::Forward(t) && t@ == "From "@ + user_mention(author_id) + ":"@),
        !is_regular ==> r.0 == moved && (r.1 matches MoveStep::Skip(t)
            && t@ == "<:mminfo:1279517292455264359> Unable to move message. Skipping: "@ + link@),
{
    if is_regular {
        (moved + 1, MoveStep::Forward(from_line(author_id)))
    } else {
        let mut t = String::new();
        push_str(&mut t, "<:mminfo:1279517292455264359> Unable to move message. Skipping: ");
        push_str(&mut t, link);
        (moved, MoveStep::Skip(t))
    }
}

/// The notice when a moved message could not be deleted; `original` when it
/// is the message of the context-menu command.
pub fn undeleted_notice(original: bool, link: &str) -> (s: String)
    ensures
        s@ == "<:mminfo:1279517292455264359> "@ + (if original { "Original message"@ } else { "Message"@ })
            + " could not be deleted. Please delete manually: "@ + link@,
{
    let mut s = String::new();
    push_str(&mut s, "<:mminfo:1279517292455264359> ");
    if original {
        push_str(&mut s, "Original message");
    } else {
        push_str(&mut s, "Message");
    }
    push_str(&mut s, " could not be deleted. Please delete manually: ");
    push_str(&mut s, link);
    s
}

/// The report after a move: how many messages went where.
pub fn moved_summary(moved: u64, target: u64) -> (s: String)
    ensures
        s@ == "<:mmcheck:1279517233877483601> "@ + nat_decimal(moved as nat) + " message"@
            + (if moved == 1 { ""@ } else { "s"@ }) + " successfully moved to "@ + channel_mention(target) + "."@,
{
    let mut s = String::new();
    push_str(&mut s, "<:mmcheck:1279517233877483601> ");
    push_u64(&mut s, moved);
    push_str(&mut s, " message");
    if moved != 1 {
        push_str(&mut s, "s");
    } else {
        proof {
            reveal_strlit("");
        }
        assert(s@ =~= s@ + ""@);
    }
    push_str(&mut s, " successfully moved to ");
    push_str(&mut s, "<#");
    push_u64(&mut s, target);
    push_str(&mut s, ">");
    push_str(&mut s, ".");
    assert(s@ =~= "<:mmcheck:1279517233877483601> "@ + nat_decimal(moved as nat) + " message"@
        + (if moved == 1 { ""@ } else { "s"@ }) + " successfully moved to "@ + channel_mention(target) + "."@);
    s
}

/// The report after moving the message of the context-menu command.
pub fn single_move_summary(target: u64) -> (s: String)
    ensures
        s@ == "<:mmcheck:1279517233877483601> Message successfully moved to "@ + channel_mention(target) + "."@,
{
    let mut s = String::new();
    push_str(&mut s, "<:mmcheck:1279517233877483601> Message successfully moved to ");
    push_str(&mut s, "<#");
    push_u64(&mut s, target);
    push_str(&mut s, ">");
    push_str(&mut s, ".");
    assert(s@ =~= "<:mmcheck:1279517233877483601> Message successfully moved to "@ + channel_mention(target) + "."@);
    s
}

/// The note when no channel was chosen in time.
pub fn move_timed_out() -> (s: String)
    ensures
        s@ == "<:mminfo:1279517292455264359> Timed out waiting for response."@,
{
    let mut s = String::new();
    push_str(&mut s, "<:mminfo:1279517292455264359> Timed out waiting for response.");
    s
}

} // verus!

verus! {

/// A thread name taken from a longer message never exceeds 43 characters:
/// at most forty of the message and the ellipsis.
pub proof fn lemma_thread_name_fits(content: Seq<char>)
    ensures
        content.len() > THREAD_NAME_CHARS ==> thread_name(content).len() <= THREAD_NAME_CHARS + 3,
        content.len() <= THREAD_NAME_CHARS ==> thread_name(content) == content,
{
    reveal_strlit("...");
    if content.len() > THREAD_NAME_CHARS {
        lemma_last_space_below(content.take(THREAD_NAME_CHARS as int));
    }
}

} // verus!

//! Anonymous server suggestions and message reports: the discussion thread's
//! name, what the staff see, and what the member is told.
use vstd::prelude::*;
use crate::parse::chars_of;
use crate::text::{nat_decimal, push_char, push_str, push_u64, str_to_string};

verus! {

/// The most characters of a suggestion that name its discussion thread.
pub const THREAD_SUGGESTION_CHARS: usize = 85usize;

/// The name of a suggestion's discussion thread: the suggestion, cut to its
/// first 85 characters and an ellipsis when longer.
pub open spec fn discussion_name(suggestion: Seq<char>) -> Seq<char> {
    "Discussion: "@ + if suggestion.len() > THREAD_SUGGESTION_CHARS {
        suggestion.take(THREAD_SUGGESTION_CHARS as int) + "..."@
    } else {
        suggestion
    }
}

/// The name of a suggestion's discussion thread (see [`discussion_name`]).
pub fn discussion_thread_name(suggestion: &str) -> (s: String)
    ensures
        s@ == discussion_name(suggestion@),
{
    let v = chars_of(suggestion);
    let mut s = String::new();
    push_str(&mut s, "Discussion: ");
    if v.len() > THREAD_SUGGESTION_CHARS {
        let ghost head = s@;
        let mut i: usize = 0;
        while i < THREAD_SUGGESTION_CHARS
            invariant
                i <= THREAD_SUGGESTION_CHARS < v@.len(),
                s@ == head + v@.take(i as int),
            decreases THREAD_SUGGESTION_CHARS - i,
        {
            push_char(&mut s, v[i]);
            assert(s@ =~= head + v@.take(i as int + 1));
            i += 1;
        }
        push_str(&mut s, "...");
        assert(s@ =~= discussion_name(suggestion@));
    } else {
        push_str(&mut s, suggestion);
    }
    s
}

/// The footer of a suggestion in the staff log: its author's identifier.
pub fn author_footer(author_id: u64) -> (s: String)
    ensures
        s@ == "Author ID: "@ + nat_decimal(author_id as nat),
{
    let mut s = String::new();
    push_str(&mut s, "Author ID: ");
    push_u64(&mut s, author_id);
    s
}

/// The private note after a suggestion was posted in `channel`.
pub fn suggestion_posted(channel: u64) -> (s: String)
    ensures
        s@ == "Your suggestion has been added to <#"@ + nat_decimal(channel as nat) + ">."@,
{
    let mut s = String::new();
    push_str(&mut s, "Your suggestion has been added to <#");
    push_u64(&mut s, channel);
    push_str(&mut s, ">.");
    s
}

/// What a report shows of the reported message: its text, or, when it has
/// none, its first attachment's address, or nothing.
pub open spec fn reported_content(content: Seq<char>, first_attachment: Option<Seq<char>>) -> Seq<char> {
    if content.len() > 0 {
        content
    } else {
        match first_attachment {
            Some(url) => "**Attachment**\n"@ + url,
            None => Seq::empty(),
        }
    }
}

/// What a report shows of the reported message (see [`reported_content`]).
pub fn report_content(content: &str, first_attachment: Option<&str>) -> (s: String)
    ensures
        s@ == reported_content(
            content@,
            match first_attachment {
                Some(u) => Some(u@),
                None => None,
            },
        ),
{
    if chars_of(content).len() > 0 {
        return str_to_string(content);
    }
    match first_attachment {
        Some(url) => {
            let mut s = String::new();
            push_str(&mut s, "**Attachment**\n");
            push_str(&mut s, url);
            s
        },
        None => String::new(),
    }
}

/// The texts of a report beside the message's content: the heading that pings
/// the staff, the link field and the footer naming the message's author, its
/// channel and the member who reported it.
pub struct ReportTexts {
    pub heading: String,
    pub link: String,
    pub footer: String,
}

/// The texts of a report of the message at `link`, by `author_id`, in the
/// channel named `channel_name`, reported by `reporter_name` (`reporter_id`).
pub fn report_texts(link: &str, author_id: u64, channel_name: &str, reporter_name: &str, reporter_id: u64) -> (r:
    ReportTexts)
    ensures
        r.heading@ == "<@&"@ + nat_decimal(788760128010059786nat) + "> Message Reported"@,
        r.link@ == "[Go to message]("@ + link@ + ")"@,
        r.footer@ == "Author ID: "@ + nat_decimal(author_id as nat) + "\nReported via context menu in #"@
            + channel_name@ + " by "@ + reporter_name@ + " ("@ + nat_decimal(reporter_id as nat) + ")"@,
{
    let mut heading = String::new();
    push_str(&mut heading, "<@&");
    push_u64(&mut heading, crate::config::roles().staff.0);
    push_str(&mut heading, "> Message Reported");
    let mut link_text = String::new();
    push_str(&mut link_text, "[Go to message](");
    push_str(&mut link_text, link);
    push_str(&mut link_text, ")");
    let mut footer = String::new();
    push_str(&mut footer, "Author ID: ");
    push_u64(&mut footer, author_id);
    push_str(&mut footer, "\nReported via context menu in #");
    push_str(&mut footer, channel_name);
    push_str(&mut footer, " by ");
    push_str(&mut footer, reporter_name);
    push_str(&mut footer, " (");
    push_u64(&mut footer, reporter_id);
    push_str(&mut footer, ")");
    ReportTexts { heading, link: link_text, footer }
}

/// The private note after a report was sent.
pub fn report_sent() -> (s: String)
    ensures
        s@ == "Your report has been sent to the moderation team."@,
{
    str_to_string("Your report has been sent to the moderation team.")
}

} // verus!

verus! {

/// A discussion thread's name never exceeds the 100 characters Discord
/// allows a thread name.
pub proof fn lemma_discussion_name_fits(suggestion: Seq<char>)
    ensures
        discussion_name(suggestion).len() <= 100,
{
    reveal_strlit("Discussion: ");
    reveal_strlit("...");
}

} // verus!

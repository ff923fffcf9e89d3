//! Erasing a member's message: the predefined reasons, what the reason menu
//! selects, and the texts of the log entry and of the private notification.
use vstd::prelude::*;
use crate::pagination::{PageEmbed, PageType};
use crate::text::{int_decimal, nat_decimal, push_str, push_u64, str_to_string};
use crate::parse::chars_of;

verus! {

/// The predefined reasons for erasing a message.
#[derive(Debug, Clone, Copy, PartialEq, Eq, Structural)]
pub enum DefaultReasons {
    Rule1BeKind,
    Rule2BeRespectful,
    Rule3AllAges,
    Rule4RespectBoundaries,
    Rule8SelfPromo,
    Rule9IPRights,
    Rule10Drugs,
    Rule10Politics,
    Rule10Disinformation,
    MentalHealth,
    NonDiscussionChannel,
    UnwholesomeMeme,
    ExcessiveVenting,
    NoReason,
}

/// The text sent to the member for a predefined reason.
pub open spec fn reason_text(r: DefaultReasons) -> Seq<char> {
    match r {
        DefaultReasons::Rule1BeKind => "Please help us cultivate a warm and welcoming atmosphere by remaining civil and treating others with kindness. Disagreeing with others, challenging views, questioning actions/behavior, etc. can all be done respectfully and mindfully."@,
        DefaultReasons::Rule2BeRespectful => "Please help us cultivate an atmosphere of respect. This is a diverse and inclusive community; all ages, genders, religions, and traditions are welcome. Questioning identities or views may be done respectfully, as long as the other person exhibits a willingness to engage."@,
        DefaultReasons::Rule3AllAges => "This is an all-ages server. Please help us cultivate a wholesome atmosphere by being mindful of excessive profanity and vulgar or violent language or content. Try to limit mature themes, such as sexual or potentially triggering topics, to the <#1020856801115246702> forum with the `Mature Topic` tag applied."@,
        DefaultReasons::Rule4RespectBoundaries => "We love having fun! A bit of jesting or banter is fine, as long as it is good-natured and consensual. If the other party ever seems uncomfortable or asks you to stop, respect their wishes, even if you were engaging with good intentions."@,
        DefaultReasons::Rule8SelfPromo => "Advertising, recruitment, solicitation, and self-promo require approval. This server is meant to be a safe space, where community members can feel confident they're interacting with fellow members who care about the community, and self-promo can violate that sense of safety. While exceptions are rare, you may contact <@575252669443211264> to request authorization."@,
        DefaultReasons::Rule9IPRights => "Sharing content that violates intellectual property rights is prohibited by the Discord Community Guidelines."@,
        DefaultReasons::Rule10Drugs => "As an all-ages Discord Partner community accessible via Server Discovery, discussion of drugs/controlled substances is prohibited by Discord's Discovery guidelines. Please help us cultivate and maintain an environment that is appropriate for all of our diverse membership. Thank you!"@,
        DefaultReasons::Rule10Politics => "Due to the strong tendency for political discussions to become highly charged and promote polarized views, we ask that members choose a different outlet. As long as they are relevant to server themes and remain civil, discussions may include political elements, but discussing politics directly is outside of the server scope."@,
        DefaultReasons::Rule10Disinformation => "Sharing potentially harmful misinformation, such as conspiracy theories or fake news, is prohibited by the Discord Community Guidelines. Even seemingly harmless conspiracy theories serve to spread misinformation and are rarely relevant to server themes, so we ask that such discussion be avoided."@,
        DefaultReasons::MentalHealth => "This is not a mental health server. For everyone's safety, we ask that members avoid diagnosing others and giving or requesting personalized advice regarding diagnosable mental health conditions or medications. See our Mental Health Discussion Guidelines: <#809814483874480138>"@,
        DefaultReasons::NonDiscussionChannel => "Please note that this is a non-discussion channel. If you would like to discuss or respond to a message, please create a thread, or you may DM the author if they have the DM-friendly tag."@,
        DefaultReasons::UnwholesomeMeme => "Please help us ensure that memes are wholesome and appropriate for all ages. While we do enjoy a wide range of humor, we also recognize that much of it does not fit the intention of this channel. Please employ discretion when choosing where to share. Thank you!"@,
        DefaultReasons::ExcessiveVenting => "We understand that sometimes people just want to let off some steam, which is why we have the `#venting` and `#venting-void` channels. We ask that venting be limited to these channels. If you are looking for advice or feedback, consider posting in <#1020856801115246702>. Thank you!"@,
        DefaultReasons::NoReason => "No reason provided."@,
    }
}

/// The label of a predefined reason in the choice list.
pub open spec fn reason_label(r: DefaultReasons) -> Seq<char> {
    match r {
        DefaultReasons::Rule1BeKind => "Rule 1: Be kind"@,
        DefaultReasons::Rule2BeRespectful => "Rule 2: Be respectful"@,
        DefaultReasons::Rule3AllAges => "Rule 3: All-ages appropriate"@,
        DefaultReasons::Rule4RespectBoundaries => "Rule 4: Respect boundaries"@,
        DefaultReasons::Rule8SelfPromo => "Rule 8: Self-promo"@,
        DefaultReasons::Rule9IPRights => "Rule 9: Respect IP rights"@,
        DefaultReasons::Rule10Drugs => "Rule 10: Drug chat"@,
        DefaultReasons::Rule10Politics => "Rule 10: Politics"@,
        DefaultReasons::Rule10Disinformation => "Rule 10: Disinformation"@,
        DefaultReasons::MentalHealth => "Mental health guidelines"@,
        DefaultReasons::NonDiscussionChannel => "Non-discussion channel"@,
        DefaultReasons::UnwholesomeMeme => "Unwholesome meme"@,
        DefaultReasons::ExcessiveVenting => "Excessive venting"@,
        DefaultReasons::NoReason => "None"@,
    }
}

/// The value that the reason menu reports for a predefined reason.
pub open spec fn reason_value(r: DefaultReasons) -> Seq<char> {
    match r {
        DefaultReasons::Rule1BeKind => "Rule1BeKind"@,
        DefaultReasons::Rule2BeRespectful => "Rule2BeRespectful"@,
        DefaultReasons::Rule3AllAges => "Rule3AllAges"@,
        DefaultReasons::Rule4RespectBoundaries => "Rule4RespectBoundaries"@,
        DefaultReasons::Rule8SelfPromo => "Rule8SelfPromo"@,
        DefaultReasons::Rule9IPRights => "Rule9IPRights"@,
        DefaultReasons::Rule10Drugs => "Rule10Drugs"@,
        DefaultReasons::Rule10Politics => "Rule10Politics"@,
        DefaultReasons::Rule10Disinformation => "Rule10Disinformation"@,
        DefaultReasons::MentalHealth => "MentalHealth"@,
        DefaultReasons::NonDiscussionChannel => "NonDiscussionChannel"@,
        DefaultReasons::UnwholesomeMeme => "UnwholesomeMeme"@,
        DefaultReasons::ExcessiveVenting => "ExcessiveVenting"@,
        DefaultReasons::NoReason => "None"@,
    }
}

impl DefaultReasons {
    /// The text sent to the member for this reason.
    pub fn response(&self) -> (s: String)
        ensures
            s@ == reason_text(*self),
    {
        match self {
            DefaultReasons::Rule1BeKind => str_to_string("Please help us cultivate a warm and welcoming atmosphere by remaining civil and treating others with kindness. Disagreeing with others, challenging views, questioning actions/behavior, etc. can all be done respectfully and mindfully."),
            DefaultReasons::Rule2BeRespectful => str_to_string("Please help us cultivate an atmosphere of respect. This is a diverse and inclusive community; all ages, genders, religions, and traditions are welcome. Questioning identities or views may be done respectfully, as long as the other person exhibits a willingness to engage."),
            DefaultReasons::Rule3AllAges => str_to_string("This is an all-ages server. Please help us cultivate a wholesome atmosphere by being mindful of excessive profanity and vulgar or violent language or content. Try to limit mature themes, such as sexual or potentially triggering topics, to the <#1020856801115246702> forum with the `Mature Topic` tag applied."),
            DefaultReasons::Rule4RespectBoundaries => str_to_string("We love having fun! A bit of jesting or banter is fine, as long as it is good-natured and consensual. If the other party ever seems uncomfortable or asks you to stop, respect their wishes, even if you were engaging with good intentions."),
            DefaultReasons::Rule8SelfPromo => str_to_string("Advertising, recruitment, solicitation, and self-promo require approval. This server is meant to be a safe space, where community members can feel confident they're interacting with fellow members who care about the community, and self-promo can violate that sense of safety. While exceptions are rare, you may contact <@575252669443211264> to request authorization."),
            DefaultReasons::Rule9IPRights => str_to_string("Sharing content that violates intellectual property rights is prohibited by the Discord Community Guidelines."),
            DefaultReasons::Rule10Drugs => str_to_string("As an all-ages Discord Partner community accessible via Server Discovery, discussion of drugs/controlled substances is prohibited by Discord's Discovery guidelines. Please help us cultivate and maintain an environment that is appropriate for all of our diverse membership. Thank you!"),
            DefaultReasons::Rule10Politics => str_to_string("Due to the strong tendency for political discussions to become highly charged and promote polarized views, we ask that members choose a different outlet. As long as they are relevant to server themes and remain civil, discussions may include political elements, but discussing politics directly is outside of the server scope."),
            DefaultReasons::Rule10Disinformation => str_to_string("Sharing potentially harmful misinformation, such as conspiracy theories or fake news, is prohibited by the Discord Community Guidelines. Even seemingly harmless conspiracy theories serve to spread misinformation and are rarely relevant to server themes, so we ask that such discussion be avoided."),
            DefaultReasons::MentalHealth => str_to_string("This is not a mental health server. For everyone's safety, we ask that members avoid diagnosing others and giving or requesting personalized advice regarding diagnosable mental health conditions or medications. See our Mental Health Discussion Guidelines: <#809814483874480138>"),
            DefaultReasons::NonDiscussionChannel => str_to_string("Please note that this is a non-discussion channel. If you would like to discuss or respond to a message, please create a thread, or you may DM the author if they have the DM-friendly tag."),
            DefaultReasons::UnwholesomeMeme => str_to_string("Please help us ensure that memes are wholesome and appropriate for all ages. While we do enjoy a wide range of humor, we also recognize that much of it does not fit the intention of this channel. Please employ discretion when choosing where to share. Thank you!"),
            DefaultReasons::ExcessiveVenting => str_to_string("We understand that sometimes people just want to let off some steam, which is why we have the `#venting` and `#venting-void` channels. We ask that venting be limited to these channels. If you are looking for advice or feedback, consider posting in <#1020856801115246702>. Thank you!"),
            DefaultReasons::NoReason => str_to_string("No reason provided."),
        }
    }

    /// The label of this reason in the choice list.
    pub fn name(&self) -> (s: &'static str)
        ensures
            s@ == reason_label(*self),
    {
        match self {
            DefaultReasons::Rule1BeKind => "Rule 1: Be kind",
            DefaultReasons::Rule2BeRespectful => "Rule 2: Be respectful",
            DefaultReasons::Rule3AllAges => "Rule 3: All-ages appropriate",
            DefaultReasons::Rule4RespectBoundaries => "Rule 4: Respect boundaries",
            DefaultReasons::Rule8SelfPromo => "Rule 8: Self-promo",
            DefaultReasons::Rule9IPRights => "Rule 9: Respect IP rights",
            DefaultReasons::Rule10Drugs => "Rule 10: Drug chat",
            DefaultReasons::Rule10Politics => "Rule 10: Politics",
            DefaultReasons::Rule10Disinformation => "Rule 10: Disinformation",
            DefaultReasons::MentalHealth => "Mental health guidelines",
            DefaultReasons::NonDiscussionChannel => "Non-discussion channel",
            DefaultReasons::UnwholesomeMeme => "Unwholesome meme",
            DefaultReasons::ExcessiveVenting => "Excessive venting",
            DefaultReasons::NoReason => "None",
        }
    }

    /// The value the reason menu reports for this reason.
    pub fn value(&self) -> (s: &'static str)
        ensures
            s@ == reason_value(*self),
    {
        match self {
            DefaultReasons::Rule1BeKind => "Rule1BeKind",
            DefaultReasons::Rule2BeRespectful => "Rule2BeRespectful",
            DefaultReasons::Rule3AllAges => "Rule3AllAges",
            DefaultReasons::Rule4RespectBoundaries => "Rule4RespectBoundaries",
            DefaultReasons::Rule8SelfPromo => "Rule8SelfPromo",
            DefaultReasons::Rule9IPRights => "Rule9IPRights",
            DefaultReasons::Rule10Drugs => "Rule10Drugs",
            DefaultReasons::Rule10Politics => "Rule10Politics",
            DefaultReasons::Rule10Disinformation => "Rule10Disinformation",
            DefaultReasons::MentalHealth => "MentalHealth",
            DefaultReasons::NonDiscussionChannel => "NonDiscussionChannel",
            DefaultReasons::UnwholesomeMeme => "UnwholesomeMeme",
            DefaultReasons::ExcessiveVenting => "ExcessiveVenting",
            DefaultReasons::NoReason => "None",
        }
    }
}

/// What a selection in the reason menu asks for.
#[derive(Debug, Clone, Copy, PartialEq, Eq, Structural)]
pub enum EraseMenuAction {
    /// Stop without erasing.
    Cancel,
    /// Ask the moderator for a reason of their own.
    Custom,
    /// Erase with a predefined reason.
    Reason(DefaultReasons),
}

/// The predefined reason a menu value stands for; unknown values mean no reason.
pub open spec fn reason_for_value(v: Seq<char>) -> DefaultReasons {
    if v == "Rule1BeKind"@ {
        DefaultReasons::Rule1BeKind
    } else if v == "Rule2BeRespectful"@ {
        DefaultReasons::Rule2BeRespectful
    } else if v == "Rule3AllAges"@ {
        DefaultReasons::Rule3AllAges
    } else if v == "Rule4RespectBoundaries"@ {
        DefaultReasons::Rule4RespectBoundaries
    } else if v == "Rule8SelfPromo"@ {
        DefaultReasons::Rule8SelfPromo
    } else if v == "Rule9IPRights"@ {
        DefaultReasons::Rule9IPRights
    } else if v == "Rule10Drugs"@ {
        DefaultReasons::Rule10Drugs
    } else if v == "Rule10Politics"@ {
        DefaultReasons::Rule10Politics
    } else if v == "Rule10Disinformation"@ {
        DefaultReasons::Rule10Disinformation
    } else if v == "MentalHealth"@ {
        DefaultReasons::MentalHealth
    } else if v == "NonDiscussionChannel"@ {
        DefaultReasons::NonDiscussionChannel
    } else if v == "UnwholesomeMeme"@ {
        DefaultReasons::UnwholesomeMeme
    } else if v == "ExcessiveVenting"@ {
        DefaultReasons::ExcessiveVenting
    } else {
        DefaultReasons::NoReason
    }
}

/// What a value chosen in the reason menu asks for.
pub open spec fn menu_action(choice: Seq<char>) -> EraseMenuAction {
    if choice == "cancel"@ {
        EraseMenuAction::Cancel
    } else if choice == "custom"@ {
        EraseMenuAction::Custom
    } else {
        EraseMenuAction::Reason(reason_for_value(choice))
    }
}

fn same_text(a: &str, b: &str) -> (r: bool)
    ensures
        r == (a@ == b@),
{
    str_to_string(a) == str_to_string(b)
}

/// The action for a value chosen in the reason menu.
pub fn erase_menu_action(choice: &str) -> (a: EraseMenuAction)
    ensures
        a == menu_action(choice@),
{
    if same_text(choice, "cancel") {
        return EraseMenuAction::Cancel;
    }
    if same_text(choice, "custom") {
        return EraseMenuAction::Custom;
    }
    let r = if same_text(choice, "Rule1BeKind") {
        DefaultReasons::Rule1BeKind
    } else if same_text(choice, "Rule2BeRespectful") {
        DefaultReasons::Rule2BeRespectful
    } else if same_text(choice, "Rule3AllAges") {
        DefaultReasons::Rule3AllAges
    } else if same_text(choice, "Rule4RespectBoundaries") {
        DefaultReasons::Rule4RespectBoundaries
    } else if same_text(choice, "Rule8SelfPromo") {
        DefaultReasons::Rule8SelfPromo
    } else if same_text(choice, "Rule9IPRights") {
        DefaultReasons::Rule9IPRights
    } else if same_text(choice, "Rule10Drugs") {
        DefaultReasons::Rule10Drugs
    } else if same_text(choice, "Rule10Politics") {
        DefaultReasons::Rule10Politics
    } else if same_text(choice, "Rule10Disinformation") {
        DefaultReasons::Rule10Disinformation
    } else if same_text(choice, "MentalHealth") {
        DefaultReasons::MentalHealth
    } else if same_text(choice, "NonDiscussionChannel") {
        DefaultReasons::NonDiscussionChannel
    } else if same_text(choice, "UnwholesomeMeme") {
        DefaultReasons::UnwholesomeMeme
    } else if same_text(choice, "ExcessiveVenting") {
        DefaultReasons::ExcessiveVenting
    } else {
        DefaultReasons::NoReason
    };
    EraseMenuAction::Reason(r)
}

/// The reason recorded for an erase: the moderator's own text when given,
/// else the chosen predefined reason, else "No reason provided.".
pub fn erase_reason(reason: Option<String>, default_reason: Option<DefaultReasons>) -> (s: String)
    ensures
        s@ == match reason {
            Some(r) => r@,
            None => reason_text(
                match default_reason {
                    Some(d) => d,
                    None => DefaultReasons::NoReason,
                },
            ),
        },
{
    match reason {
        Some(r) => r,
        None => match default_reason {
            Some(d) => d.response(),
            None => DefaultReasons::NoReason.response(),
        },
    }
}

/// `1 erase recorded` or `{n} erases recorded`.
pub open spec fn erase_count_text(n: nat) -> Seq<char> {
    if n == 1 {
        "1 erase recorded"@
    } else {
        nat_decimal(n) + " erases recorded"@
    }
}

/// The number of bytes UTF-8 uses for a character.
pub open spec fn utf8_width(c: char) -> nat {
    if (c as u32) < 0x80 {
        1
    } else if (c as u32) < 0x800 {
        2
    } else if (c as u32) < 0x10000 {
        3
    } else {
        4
    }
}

/// The number of bytes UTF-8 uses for a character (see [`utf8_width`]).
pub(crate) fn utf8_width_of(c: char) -> (w: u64)
    ensures
        w == utf8_width(c),
{
    if (c as u32) < 0x80 {
        1
    } else if (c as u32) < 0x800 {
        2
    } else if (c as u32) < 0x10000 {
        3
    } else {
        4
    }
}

/// The length in bytes of a text encoded as UTF-8.
pub open spec fn utf8_len(s: Seq<char>) -> nat
    decreases s.len(),
{
    if s.len() == 0 {
        0
    } else {
        utf8_len(s.drop_last()) + utf8_width(s.last())
    }
}

/// A message's content as the notices quote it: a content of more than 1018
/// bytes is cut to its first 1015 characters followed by `...`.
pub open spec fn content_excerpt(content: Seq<char>) -> Seq<char> {
    if utf8_len(content) > 1018 {
        (if content.len() > 1015 {
            content.take(1015)
        } else {
            content
        }) + "..."@
    } else {
        content
    }
}

/// Whether a text takes more than `limit` bytes in UTF-8.
pub(crate) fn utf8_len_exceeds(s: &Vec<char>, limit: u64) -> (b: bool)
    requires
        limit <= u32::MAX,
    ensures
        b == (utf8_len(s@) > limit),
{
    let mut total: u64 = 0;
    let mut i: usize = 0;
    while i < s.len()
        invariant
            i <= s.len(),
            limit <= u32::MAX,
            total == utf8_len(s@.take(i as int)),
            total <= limit,
        decreases s.len() - i,
    {
        proof {
            assert(s@.take(i as int + 1).drop_last() =~= s@.take(i as int));
        }
        total = total + utf8_width_of(s[i]);
        i += 1;
        if total > limit {
            proof {
                lemma_utf8_len_prefix(s@, i as int);
            }
            return true;
        }
    }
    assert(s@.take(s@.len() as int) =~= s@);
    false
}

proof fn lemma_utf8_len_prefix(s: Seq<char>, k: int)
    requires
        0 <= k <= s.len(),
    ensures
        utf8_len(s.take(k)) <= utf8_len(s),
    decreases s.len(),
{
    if k < s.len() {
        lemma_utf8_len_prefix(s.drop_last(), k);
        assert(s.drop_last().take(k) =~= s.take(k));
    } else {
        assert(s.take(k) =~= s);
    }
}

/// The content quoted by the notices (see [`content_excerpt`]).
pub fn message_excerpt(content: &str) -> (s: String)
    ensures
        s@ == content_excerpt(content@),
{
    let chars = chars_of(content);
    if utf8_len_exceeds(&chars, 1018) {
        let mut s = String::new();
        let n: usize = if chars.len() > 1015 {
            1015
        } else {
            chars.len()
        };
        let mut i: usize = 0;
        while i < n
            invariant
                i <= n <= chars.len(),
                s@ == chars@.take(i as int),
            decreases n - i,
        {
            crate::text::push_char(&mut s, chars[i]);
            i += 1;
            proof {
                assert(s@ =~= chars@.take(i as int));
            }
        }
        proof {
            if chars.len() <= 1015 {
                assert(chars@.take(n as int) =~= chars@);
            }
        }
        push_str(&mut s, "...");
        s
    } else {
        str_to_string(content)
    }
}

/// The texts of the pairs of an embed's fields.
pub open spec fn field_texts(v: Seq<(String, String)>) -> Seq<(Seq<char>, Seq<char>)> {
    v.map_values(|p: (String, String)| (p.0@, p.1@))
}

/// The fields both notices carry: the first attachment and the content, when present.
pub open spec fn erase_fields(attachment: Option<Seq<char>>, content: Seq<char>) -> Seq<(Seq<char>, Seq<char>)> {
    let a = match attachment {
        Some(url) => seq![("Attachment"@, url)],
        None => Seq::empty(),
    };
    if content.len() == 0 {
        a
    } else {
        a.push(("Message Content"@, "```"@ + content_excerpt(content) + "```"@))
    }
}

/// The footer of the private notification sent directly to the member.
pub open spec fn dm_footer() -> Seq<char> {
    "If you have any questions or concerns regarding this action, please contact a moderator. Replies sent to Bloom are not viewable by staff."@
}

/// The footer of the private notification posted in a private thread.
pub open spec fn thread_footer() -> Seq<char> {
    "If you have any questions or concerns regarding this action, please contact staff via ModMail."@
}

/// The log entry and the private notification of an erase.
pub struct EraseNotices {
    pub log: PageEmbed,
    pub dm: PageEmbed,
}

fn build_fields(attachment: Option<&str>, content: &str) -> (v: Vec<(String, String)>)
    ensures
        field_texts(v@) == erase_fields(
            match attachment {
                Some(a) => Some(a@),
                None => None,
            },
            content@,
        ),
{
    let mut v: Vec<(String, String)> = Vec::new();
    match attachment {
        Some(url) => {
            v.push((str_to_string("Attachment"), str_to_string(url)));
            assert(field_texts(v@) =~= seq![("Attachment"@, url@)]);
        },
        None => {
            assert(field_texts(v@) =~= Seq::<(Seq<char>, Seq<char>)>::empty());
        },
    }
    let ghost before = v@;
    if !content.is_empty() {
        let mut quoted = String::new();
        push_str(&mut quoted, "```");
        let excerpt = message_excerpt(content);
        push_str(&mut quoted, excerpt.as_str());
        push_str(&mut quoted, "```");
        v.push((str_to_string("Message Content"), quoted));
        proof {
            assert(field_texts(v@) =~= field_texts(before).push(
                ("Message Content"@, "```"@ + content_excerpt(content@) + "```"@),
            ));
        }
    }
    v
}

/// The log entry and the private notification for erasing a message from
/// `channel_id` written by `author_id`, who had `previous_erases` erases
/// recorded before, deleted by a moderator for `reason`.
pub fn erase_notices(
    channel_id: u64,
    author_id: u64,
    previous_erases: u64,
    reason: &str,
    attachment: Option<&str>,
    content: &str,
    moderator_name: &str,
    moderator_id: u64,
) -> (n: EraseNotices)
    requires
        previous_erases < u64::MAX,
    ensures
        n.log.title@ == "Message Deleted"@,
        n.log.description@ == "**Channel**: <#"@ + nat_decimal(channel_id as nat)
            + ">\n**Author**: <@"@ + nat_decimal(author_id as nat) + "> ("@ + erase_count_text(
            (previous_erases + 1) as nat,
        ) + ")\n**Reason**: "@ + reason@,
        n.log.footer matches Some(f) && f@ == "Deleted by "@ + moderator_name@ + " ("@
            + nat_decimal(moderator_id as nat) + ")"@,
        n.dm.title@ == "A message you sent has been deleted."@,
        n.dm.description@ == "**Reason**: "@ + reason@,
        n.dm.footer matches Some(f) && f@ == dm_footer(),
        ({
            let fields = erase_fields(
                match attachment {
                    Some(a) => Some(a@),
                    None => None,
                },
                content@,
            );
            field_texts(n.log.fields@) == fields && field_texts(n.dm.fields@) == fields
        }),
{
    let count = previous_erases + 1;
    let mut description = String::new();
    push_str(&mut description, "**Channel**: <#");
    push_u64(&mut description, channel_id);
    push_str(&mut description, ">\n**Author**: <@");
    push_u64(&mut description, author_id);
    push_str(&mut description, "> (");
    if count == 1 {
        push_str(&mut description, "1 erase recorded");
    } else {
        push_u64(&mut description, count);
        push_str(&mut description, " erases recorded");
    }
    push_str(&mut description, ")\n**Reason**: ");
    push_str(&mut description, reason);
    let mut log_footer = String::new();
    push_str(&mut log_footer, "Deleted by ");
    push_str(&mut log_footer, moderator_name);
    push_str(&mut log_footer, " (");
    push_u64(&mut log_footer, moderator_id);
    push_str(&mut log_footer, ")");
    let mut dm_description = String::new();
    push_str(&mut dm_description, "**Reason**: ");
    push_str(&mut dm_description, reason);
    let log = PageEmbed {
        title: str_to_string("Message Deleted"),
        description,
        fields: build_fields(attachment, content),
        footer: Some(log_footer),
    };
    let dm = PageEmbed {
        title: str_to_string("A message you sent has been deleted."),
        description: dm_description,
        fields: build_fields(attachment, content),
        footer: Some(
            str_to_string(
                "If you have any questions or concerns regarding this action, please contact a moderator. Replies sent to Bloom are not viewable by staff.",
            ),
        ),
    };
    EraseNotices { log, dm }
}

/// The notification posted in a private thread when a direct message cannot
/// be delivered: the same embed with the thread footer.
pub fn thread_notification(dm: PageEmbed) -> (e: PageEmbed)
    ensures
        e.title == dm.title && e.description == dm.description && e.fields == dm.fields,
        e.footer matches Some(f) && f@ == thread_footer(),
{
    PageEmbed {
        title: dm.title,
        description: dm.description,
        fields: dm.fields,
        footer: Some(
            str_to_string(
                "If you have any questions or concerns regarding this action, please contact staff via ModMail.",
            ),
        ),
    }
}

/// The first line of the private thread, mentioning the member.
pub fn thread_greeting(user_id: u64) -> (s: String)
    ensures
        s@ == "Private notification for <@"@ + nat_decimal(user_id as nat) + ">:"@,
{
    let mut s = String::new();
    push_str(&mut s, "Private notification for <@");
    push_u64(&mut s, user_id);
    push_str(&mut s, ">:");
    s
}

/// Listed erases show dates as `YYYY-MM-DD` unless the day-month-year format
/// is chosen.
pub fn erase_list_page_type(day_month_year: bool) -> (p: PageType)
    ensures
        p == (if day_month_year {
            PageType::Alternate
        } else {
            PageType::Standard
        }),
{
    if day_month_year {
        PageType::Alternate
    } else {
        PageType::Standard
    }
}

} // verus!

verus! {

proof fn lemma_utf8_len_at_least_chars(s: Seq<char>)
    ensures
        utf8_len(s) >= s.len(),
    decreases s.len(),
{
    if s.len() > 0 {
        lemma_utf8_len_at_least_chars(s.drop_last());
    }
}

/// The quoted content always fits in an embed field of 1024 characters
/// together with the six backticks around it.
pub proof fn lemma_excerpt_fits_field(content: Seq<char>)
    ensures
        content_excerpt(content).len() + 6 <= 1024,
{
    reveal_strlit("...");
    lemma_utf8_len_at_least_chars(content);
}

} // verus!

verus! {

/// Erases are listed publicly in the log channel, privately elsewhere.
pub fn erase_list_visibility(channel_id: u64) -> (v: crate::common::Visibility)
    ensures
        v == (if channel_id == 441207765357035541u64 {
            crate::common::Visibility::Public
        } else {
            crate::common::Visibility::Ephemeral
        }),
{
    if crate::config::channels().logs.is(channel_id) {
        crate::common::Visibility::Public
    } else {
        crate::common::Visibility::Ephemeral
    }
}

/// Where the private thread of a notification that could not be sent as a
/// direct message is created: in the channel of the deleted message when it
/// is a text channel of the guild, otherwise in the default channel.
pub fn notification_thread_channel(message_channel: u64, is_guild_text_channel: bool) -> (c: u64)
    ensures
        c == (if is_guild_text_channel {
            message_channel
        } else {
            501464482996944909u64
        }),
{
    if is_guild_text_channel {
        message_channel
    } else {
        crate::config::channels().private_thread_default.0
    }
}

/// The title of the erase listing of a member.
pub fn erase_list_title(name: &str) -> (s: String)
    ensures
        s@ == "Erases for "@ + name@,
{
    let mut s = String::new();
    push_str(&mut s, "Erases for ");
    push_str(&mut s, name);
    s
}

} // verus!

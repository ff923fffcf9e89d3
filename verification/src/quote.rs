//! Quotes: the modal that adds or edits one, its identifier, and how a quote
//! is listed.
use vstd::prelude::*;
use crate::ids::{is_ulid_char_upper, is_ulid_text, is_valid_ulid, new_ulid_string};
use crate::pagination::{PageRow, PageType};
use crate::text::{push_str, str_to_string};

verus! {

/// A quote of a guild's collection.
pub struct Quote {
    pub id: String,
    pub quote: String,
    pub author: Option<String>,
    pub guild_id: u64,
}

/// The form that adds or edits a quote.
pub struct QuoteModal {
    pub quote: String,
    pub author: Option<String>,
}

/// Why a modal could not become a quote.
#[derive(Debug, Clone, Copy, PartialEq, Eq, Structural)]
pub enum QuoteError {
    /// The identifier is not a ULID.
    InvalidId,
}

/// The modal filled with a quote's text and author.
pub open spec fn modal_of(q: Quote) -> QuoteModal {
    QuoteModal { quote: q.quote, author: q.author }
}

/// The quote a modal becomes in a guild under an identifier: refused unless
/// the identifier is a ULID.
pub open spec fn quote_from_modal(m: QuoteModal, guild_id: u64, id: String) -> Result<Quote, QuoteError> {
    if is_ulid_text(id@) {
        Ok(Quote { id, quote: m.quote, author: m.author, guild_id })
    } else {
        Err(QuoteError::InvalidId)
    }
}

/// The author line of a listed quote: the author, or `Anonymous`.
pub open spec fn author_text(author: Option<String>) -> Seq<char> {
    match author {
        Some(a) => a@,
        None => "Anonymous"@,
    }
}

/// The title of a listed quote: its identifier.
pub open spec fn quote_title(id: Seq<char>) -> Seq<char> {
    "`ID: "@ + id + "`"@
}

/// The body of a listed quote: the text, then a dash and the author.
pub open spec fn quote_body(quote: Seq<char>, author: Option<String>) -> Seq<char> {
    quote + "\n― "@ + author_text(author)
}

fn render_title(id: &str) -> (s: String)
    ensures
        s@ == quote_title(id@),
{
    let mut s = String::new();
    push_str(&mut s, "`ID: ");
    push_str(&mut s, id);
    push_str(&mut s, "`");
    s
}

fn render_body(quote: &str, author: &Option<String>) -> (s: String)
    ensures
        s@ == quote_body(quote@, *author),
{
    let mut s = String::new();
    push_str(&mut s, quote);
    push_str(&mut s, "\n― ");
    match author {
        Some(a) => push_str(&mut s, a.as_str()),
        None => push_str(&mut s, "Anonymous"),
    }
    s
}

impl Quote {
    /// A new quote of a guild with the modal's text and author, under a freshly
    /// generated ULID.
    pub fn new_from_modal(guild_id: u64, modal: QuoteModal) -> (q: Quote)
        ensures
            q.guild_id == guild_id,
            q.quote == modal.quote,
            q.author == modal.author,
            q.id@.len() == 26,
            forall|i: int| 0 <= i < q.id@.len() ==> is_ulid_char_upper(#[trigger] q.id@[i]),
    {
        Quote { id: new_ulid_string(), quote: modal.quote, author: modal.author, guild_id }
    }
}

impl QuoteModal {
    /// The quote with the given guild and identifier and the modal's text and
    /// author; an identifier that is not a ULID is refused.
    pub fn into_quote(self, guild_id: u64, quote_id: String) -> (r: Result<Quote, QuoteError>)
        ensures
            r == quote_from_modal(self, guild_id, quote_id),
    {
        if is_valid_ulid(quote_id.as_str()) {
            Ok(Quote { id: quote_id, quote: self.quote, author: self.author, guild_id })
        } else {
            Err(QuoteError::InvalidId)
        }
    }

    /// The modal filled with a quote's text and author; the identifier and the
    /// guild are not part of it.
    pub fn from_quote(quote: Quote) -> (m: QuoteModal)
        ensures
            m == modal_of(quote),
    {
        QuoteModal { quote: quote.quote, author: quote.author }
    }
}

impl PageRow for Quote {
    open spec fn title_text(&self, page_type: PageType) -> Seq<char> {
        quote_title(self.id@)
    }

    open spec fn body_text(&self) -> Seq<char> {
        quote_body(self.quote@, self.author)
    }

    /// `` `ID: {id}` ``.
    fn title(&self, page_type: PageType) -> (s: String)
        ensures
            s@ == quote_title(self.id@),
    {
        render_title(self.id.as_str())
    }

    /// The text, a line break, a dash and the author (`Anonymous` when unknown).
    fn body(&self) -> (s: String)
        ensures
            s@ == quote_body(self.quote@, self.author),
    {
        render_body(self.quote.as_str(), &self.author)
    }
}

/// A quote as a listing of the database returns it.
pub struct QuoteData {
    pub id: String,
    pub quote: String,
    pub author: Option<String>,
}

impl PageRow for QuoteData {
    open spec fn title_text(&self, page_type: PageType) -> Seq<char> {
        quote_title(self.id@)
    }

    open spec fn body_text(&self) -> Seq<char> {
        quote_body(self.quote@, self.author)
    }

    /// `` `ID: {id}` ``.
    fn title(&self, page_type: PageType) -> (s: String)
        ensures
            s@ == quote_title(self.id@),
    {
        render_title(self.id.as_str())
    }

    /// The text, a line break, a dash and the author (`Anonymous` when unknown).
    fn body(&self) -> (s: String)
        ensures
            s@ == quote_body(self.quote@, self.author),
    {
        render_body(self.quote.as_str(), &self.author)
    }
}

/// Filling the modal from a quote and turning it back into a quote with the
/// quote's own identifier and guild gives the same quote, whenever its
/// identifier is a ULID.
pub proof fn lemma_quote_modal_round_trip(q: Quote)
    requires
        is_ulid_text(q.id@),
    ensures
        quote_from_modal(modal_of(q), q.guild_id, q.id) == Ok::<Quote, QuoteError>(q),
{
}

/// The identifier a new quote receives is accepted when the quote is edited.
pub proof fn lemma_new_ids_are_accepted(id: Seq<char>)
    requires
        id.len() == 26,
        forall|i: int| 0 <= i < id.len() ==> is_ulid_char_upper(#[trigger] id[i]),
    ensures
        is_ulid_text(id),
{
}

} // verus!

verus! {

/// A quote shown on its own: the text, a blank line, then a dash (escaped for
/// Markdown) and the author.
pub open spec fn shown_quote(quote: Seq<char>, author: Option<String>) -> Seq<char> {
    quote + "\n\n\\― "@ + author_text(author)
}

/// The description of the embed showing a quote (see [`shown_quote`]).
pub fn quote_description(q: &Quote) -> (s: String)
    ensures
        s@ == shown_quote(q.quote@, q.author),
{
    let mut s = String::new();
    push_str(&mut s, q.quote.as_str());
    push_str(&mut s, "\n\n\\― ");
    match &q.author {
        Some(a) => push_str(&mut s, a.as_str()),
        None => push_str(&mut s, "Anonymous"),
    }
    s
}

/// Whether the quote command first looks for a quote matching the keyword:
/// only for supporters who gave one.
pub fn searches_keyword(has_keyword: bool, is_supporter: bool) -> (b: bool)
    ensures
        b == (has_keyword && is_supporter),
{
    has_keyword && is_supporter
}

/// The private notes sent before the quote command falls back to a random
/// quote: for a supporter whose keyword matched nothing, that none was found;
/// whenever a keyword was given, that the keyword option is for supporters.
pub fn quote_fallback_notes(has_keyword: bool, is_supporter: bool) -> (v: Vec<String>)
    ensures
        !has_keyword ==> v@.len() == 0,
        has_keyword && is_supporter ==> v@.len() == 2 && v@[0]@ == "No quotes found. Fetching random quote."@
            && v@[1]@ == KEYWORD_FOR_SUPPORTERS@,
        has_keyword && !is_supporter ==> v@.len() == 1 && v@[0]@ == KEYWORD_FOR_SUPPORTERS@,
{
    let mut v: Vec<String> = Vec::new();
    if has_keyword {
        if is_supporter {
            v.push(str_to_string("No quotes found. Fetching random quote."));
        }
        v.push(str_to_string(KEYWORD_FOR_SUPPORTERS));
    }
    v
}

/// The note that the keyword option is for supporters.
pub const KEYWORD_FOR_SUPPORTERS: &'static str = "<:mminfo:1279517292455264359> The keyword option is only available to [subscription-based donators](<https://discord.com/channels/244917432383176705/1030424719138246667/1031137243345211413>).";

/// The answer of the quote command.
pub enum QuoteReply {
    /// No quote exists; this is said.
    NoneFound(String),
    /// The description of the embed showing the quote.
    Show(String),
}

/// The answer of the quote command for the quote found, if any.
pub fn quote_reply(q: Option<&Quote>) -> (r: QuoteReply)
    ensures
        match q {
            None => r matches QuoteReply::NoneFound(t) && t@ == "No quotes found."@,
            Some(q) => r matches QuoteReply::Show(t) && t@ == shown_quote(q.quote@, q.author),
        },
{
    match q {
        None => QuoteReply::NoneFound(str_to_string("No quotes found.")),
        Some(q) => QuoteReply::Show(quote_description(q)),
    }
}

} // verus!

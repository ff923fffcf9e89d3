//! Glossary terms: the modal that edits them, comma-separated lists, the short
//! form shown by `/whatis`, the reply when a term is not found and the
//! autocompletion of term names.
use vstd::prelude::*;
use crate::pagination::{PageRow, PageType};
use crate::parse::{
    chars_of, is_white_space, lemma_split_on_nonempty, split_chars, split_on, string_of, white_space,
};
use crate::text::{nat_decimal, push_str, push_u64, str_to_string};

verus! {

/// The text of each string of a sequence.
pub open spec fn texts(v: Seq<String>) -> Seq<Seq<char>> {
    v.map_values(|s: String| s@)
}

/// `s` without its leading white space.
pub open spec fn trim_start(s: Seq<char>) -> Seq<char>
    decreases s.len(),
{
    if s.len() > 0 && is_white_space(s[0]) {
        trim_start(s.drop_first())
    } else {
        s
    }
}

/// `s` without its trailing white space.
pub open spec fn trim_end(s: Seq<char>) -> Seq<char>
    decreases s.len(),
{
    if s.len() > 0 && is_white_space(s.last()) {
        trim_end(s.drop_last())
    } else {
        s
    }
}

/// `s` without leading and trailing white space, as `str::trim` gives it.
pub open spec fn trimmed(s: Seq<char>) -> Seq<char> {
    trim_end(trim_start(s))
}

/// The trimmed items of a comma-separated list.
pub open spec fn comma_list(s: Seq<char>) -> Seq<Seq<char>> {
    split_on(s, ',').map_values(|p: Seq<char>| trimmed(p))
}

/// The parts joined with `sep` between neighbours, as `join` gives it.
pub open spec fn joined(parts: Seq<Seq<char>>, sep: Seq<char>) -> Seq<char>
    decreases parts.len(),
{
    if parts.len() == 0 {
        Seq::empty()
    } else if parts.len() == 1 {
        parts[0]
    } else {
        joined(parts.drop_last(), sep) + sep + parts.last()
    }
}

/// An optional list that holds the given texts exactly when `spec` does.
pub open spec fn list_matches(v: Option<Vec<String>>, spec: Option<Seq<Seq<char>>>) -> bool {
    match (v, spec) {
        (Some(v), Some(s)) => texts(v@) == s,
        (None, None) => true,
        _ => false,
    }
}

/// An optional string that holds the given text exactly when `spec` does.
pub open spec fn text_matches(v: Option<String>, spec: Option<Seq<char>>) -> bool {
    match (v, spec) {
        (Some(v), Some(s)) => v@ == s,
        (None, None) => true,
        _ => false,
    }
}

/// The copy of a string slice without leading and trailing white space.
pub fn trim_chars(v: &Vec<char>) -> (r: Vec<char>)
    ensures
        r@ == trimmed(v@),
{
    let n = v.len();
    let mut i: usize = 0;
    assert(v@.subrange(0, n as int) =~= v@);
    while i < n && white_space(v[i])
        invariant
            i <= n == v.len(),
            trim_start(v@) == trim_start(v@.subrange(i as int, n as int)),
        decreases n - i,
    {
        proof {
            assert(v@.subrange(i as int, n as int).drop_first() =~= v@.subrange(
                i as int + 1,
                n as int,
            ));
        }
        i += 1;
    }
    assert(trim_start(v@) == v@.subrange(i as int, n as int));
    let mut j: usize = n;
    while j > i && white_space(v[j - 1])
        invariant
            i <= j <= n == v.len(),
            trim_end(v@.subrange(i as int, n as int)) == trim_end(
                v@.subrange(i as int, j as int),
            ),
        decreases j - i,
    {
        proof {
            assert(v@.subrange(i as int, j as int).drop_last() =~= v@.subrange(
                i as int,
                j as int - 1,
            ));
        }
        j -= 1;
    }
    assert(trim_end(v@.subrange(i as int, j as int)) == v@.subrange(i as int, j as int));
    let mut r: Vec<char> = Vec::new();
    let mut k: usize = i;
    while k < j
        invariant
            i <= k <= j <= n == v.len(),
            r@ == v@.subrange(i as int, k as int),
        decreases j - k,
    {
        r.push(v[k]);
        k += 1;
        proof {
            assert(r@ =~= v@.subrange(i as int, k as int));
        }
    }
    r
}

/// The trimmed items of a comma-separated list, as
/// `split(',').map(|s| s.trim().to_string())` gives them.
pub fn split_comma_list(s: &str) -> (r: Vec<String>)
    ensures
        texts(r@) == comma_list(s@),
{
    let chars = chars_of(s);
    let parts = split_chars(&chars, ',');
    let ghost pieces = split_on(s@, ',');
    let mut r: Vec<String> = Vec::new();
    let mut i: usize = 0;
    while i < parts.len()
        invariant
            i <= parts@.len() == pieces.len(),
            chars@ == s@,
            pieces == split_on(s@, ','),
            forall|k: int| 0 <= k < parts@.len() ==> (#[trigger] parts@[k])@ == pieces[k],
            r@.len() == i,
            forall|k: int| 0 <= k < i ==> (#[trigger] r@[k])@ == trimmed(pieces[k]),
        decreases parts.len() - i,
    {
        let t = trim_chars(&parts[i]);
        let item = string_of(&t);
        r.push(item);
        i += 1;
    }
    assert(texts(r@) =~= comma_list(s@));
    r
}

/// The parts joined with `sep` between neighbours.
pub fn join_strings(parts: &Vec<String>, sep: &str) -> (s: String)
    ensures
        s@ == joined(texts(parts@), sep@),
{
    let ghost all = texts(parts@);
    let mut s = String::new();
    let mut i: usize = 0;
    while i < parts.len()
        invariant
            i <= parts@.len() == all.len(),
            all == texts(parts@),
            s@ == joined(all.take(i as int), sep@),
        decreases parts.len() - i,
    {
        proof {
            assert(all.take(i as int + 1).drop_last() =~= all.take(i as int));
        }
        if i > 0 {
            push_str(&mut s, sep);
        } else {
            assert(s@ =~= Seq::<char>::empty());
        }
        push_str(&mut s, parts[i].as_str());
        i += 1;
        proof {
            if i == 1 {
                assert(s@ =~= all.take(1)[0]);
            }
        }
    }
    assert(all.take(all.len() as int) =~= all);
    s
}

/// The form that adds or edits a glossary term.
pub struct TermModal {
    pub meaning: String,
    pub usage: Option<String>,
    pub category: Option<String>,
    pub links: Option<String>,
    pub aliases: Option<String>,
}

/// A glossary term.
pub struct Term {
    pub guild_id: u64,
    pub name: String,
    pub meaning: String,
    pub usage: Option<String>,
    pub links: Option<Vec<String>>,
    pub category: Option<String>,
    pub aliases: Option<Vec<String>>,
}

/// The text of an optional string.
pub open spec fn opt_text(v: Option<String>) -> Option<Seq<char>> {
    match v {
        Some(s) => Some(s@),
        None => None,
    }
}

/// The items of an optional comma-separated list.
pub open spec fn opt_comma_list(v: Option<String>) -> Option<Seq<Seq<char>>> {
    match v {
        Some(s) => Some(comma_list(s@)),
        None => None,
    }
}

/// An optional list joined with `, `.
pub open spec fn opt_joined(v: Option<Vec<String>>) -> Option<Seq<char>> {
    match v {
        Some(items) => Some(joined(texts(items@), ", "@)),
        None => None,
    }
}

fn copy_text(v: &Option<String>) -> (r: Option<String>)
    ensures
        text_matches(r, opt_text(*v)),
{
    match v {
        Some(s) => Some(str_to_string(s.as_str())),
        None => None,
    }
}

fn comma_items(v: &Option<String>) -> (r: Option<Vec<String>>)
    ensures
        list_matches(r, opt_comma_list(*v)),
{
    match v {
        Some(s) => Some(split_comma_list(s.as_str())),
        None => None,
    }
}

fn joined_items(v: &Option<Vec<String>>) -> (r: Option<String>)
    ensures
        text_matches(r, opt_joined(*v)),
{
    match v {
        Some(items) => Some(join_strings(items, ", ")),
        None => None,
    }
}

impl Term {
    /// A term named `name` in a guild, with the values of a filled-in modal;
    /// links and aliases are read as comma-separated lists.
    pub fn from_modal(guild_id: u64, name: &str, modal: &TermModal) -> (t: Term)
        ensures
            t.guild_id == guild_id,
            t.name@ == name@,
            t.meaning@ == modal.meaning@,
            text_matches(t.usage, opt_text(modal.usage)),
            text_matches(t.category, opt_text(modal.category)),
            list_matches(t.links, opt_comma_list(modal.links)),
            list_matches(t.aliases, opt_comma_list(modal.aliases)),
    {
        Term {
            guild_id,
            name: str_to_string(name),
            meaning: str_to_string(modal.meaning.as_str()),
            usage: copy_text(&modal.usage),
            links: comma_items(&modal.links),
            category: copy_text(&modal.category),
            aliases: comma_items(&modal.aliases),
        }
    }
}

impl TermModal {
    /// The modal pre-filled with a term's values; links and aliases are joined
    /// with `, `. The guild and the name are not part of it.
    pub fn from_term(term: &Term) -> (m: TermModal)
        ensures
            m.meaning@ == term.meaning@,
            text_matches(m.usage, opt_text(term.usage)),
            text_matches(m.category, opt_text(term.category)),
            text_matches(m.links, opt_joined(term.links)),
            text_matches(m.aliases, opt_joined(term.aliases)),
    {
        TermModal {
            meaning: str_to_string(term.meaning.as_str()),
            usage: copy_text(&term.usage),
            category: copy_text(&term.category),
            links: joined_items(&term.links),
            aliases: joined_items(&term.aliases),
        }
    }
}

impl PageRow for Term {
    open spec fn title_text(&self, page_type: PageType) -> Seq<char> {
        "__"@ + self.name@ + "__"@
    }

    open spec fn body_text(&self) -> Seq<char> {
        self.meaning@
    }

    /// The term's name, underlined.
    fn title(&self, page_type: PageType) -> (s: String)
        ensures
            s@ == "__"@ + self.name@ + "__"@,
    {
        let mut s = String::new();
        push_str(&mut s, "__");
        push_str(&mut s, self.name.as_str());
        push_str(&mut s, "__");
        s
    }

    /// The term's meaning.
    fn body(&self) -> (s: String)
        ensures
            s@ == self.meaning@,
    {
        str_to_string(self.meaning.as_str())
    }
}

/// The pointer to the full glossary entry appended to a shortened meaning.
pub open spec fn more_information() -> Seq<char> {
    "\n\n*Use </glossary info:1135659962308243479> for more information.*"@
}

/// A meaning cut at its first line break, followed by a pointer to the full
/// entry; a meaning without a line break is kept as it is.
pub open spec fn one_liner_text(meaning: Seq<char>) -> Seq<char> {
    let lines = split_on(meaning, '\n');
    if lines.len() > 1 {
        lines[0] + more_information()
    } else {
        meaning
    }
}

/// The short form of a term's meaning shown by `/whatis`.
pub fn one_liner(term_meaning: &str) -> (s: String)
    ensures
        s@ == one_liner_text(term_meaning@),
{
    let chars = chars_of(term_meaning);
    let lines = split_chars(&chars, '\n');
    if lines.len() > 1 {
        let mut s = string_of(&lines[0]);
        push_str(&mut s, "\n\n*Use </glossary info:1135659962308243479> for more information.*");
        s
    } else {
        str_to_string(term_meaning)
    }
}

/// The reply to a lookup of a term that is not in the glossary.
pub struct GlossaryReply {
    pub title: String,
    pub description: String,
    pub field: Option<(String, String)>,
    pub footer: Option<String>,
    pub ephemeral: bool,
}

/// Each name in backticks on a line of its own.
pub open spec fn backticked_lines(names: Seq<Seq<char>>) -> Seq<char>
    decreases names.len(),
{
    if names.len() == 0 {
        Seq::empty()
    } else {
        backticked_lines(names.drop_last()) + "`"@ + names.last() + "`\n"@
    }
}

/// The names of terms.
pub open spec fn term_names(terms: Seq<Term>) -> Seq<Seq<char>> {
    terms.map_values(|t: Term| t.name@)
}

/// At most the first five names of the terms, each in backticks on its own line.
pub open spec fn suggestion_list(terms: Seq<Term>) -> Seq<char> {
    let names = term_names(terms);
    backticked_lines(names.take(if names.len() < 5 { names.len() as int } else { 5 }))
}

/// The reply when `term` is not in the glossary: with no similar term, a
/// pointer to suggesting it; with one, that term's short meaning; with more,
/// up to five of their names to choose from.
pub open spec fn not_found_reply(term: Seq<char>, possible: Seq<Term>, r: GlossaryReply) -> bool {
    if possible.len() == 0 {
        &&& r.title@ == "Term not found"@
        &&& r.description@ == "The term `"@ + term
            + "` was not found in the glossary. If you believe it should be included, use </glossary suggest:1135659962308243479> to suggest it for addition."@
        &&& r.field is None
        &&& r.footer is None
        &&& r.ephemeral
    } else if possible.len() == 1 {
        let t = possible[0];
        &&& r.title@ == t.name@
        &&& r.description@ == one_liner_text(t.meaning@)
        &&& r.field is None
        &&& r.footer matches Some(f) && f@ == "*You searched for '"@ + term
            + "'. The closest term available was '"@ + t.name@ + "'."@
        &&& !r.ephemeral
    } else {
        &&& r.title@ == "Term not found"@
        &&& r.description@ == "The term `"@ + term + "` was not found in the glossary."@
        &&& r.field matches Some(f) && f.0@ == "Did you mean one of these?"@ && f.1@
            == suggestion_list(possible)
            + "\n*Try using </glossary search:1135659962308243479> to take advantage of a more powerful search, or use </glossary suggest:1135659962308243479> to suggest the term for addition to the glossary.*"@
        &&& r.footer is None
        &&& r.ephemeral
    }
}

/// At most the first five names of the terms (see [`suggestion_list`]).
fn suggestions_text(possible_terms: &Vec<Term>) -> (s: String)
    ensures
        s@ == suggestion_list(possible_terms@),
{
    let ghost names = term_names(possible_terms@);
    let limit: usize = if possible_terms.len() < 5 {
        possible_terms.len()
    } else {
        5
    };
    let mut suggestions = String::new();
    let mut i: usize = 0;
    while i < limit
        invariant
            i <= limit <= possible_terms@.len(),
            limit == (if possible_terms@.len() < 5 { possible_terms@.len() } else { 5 }),
            names == term_names(possible_terms@),
            suggestions@ == backticked_lines(names.take(i as int)),
        decreases limit - i,
    {
        proof {
            assert(names.take(i as int + 1).drop_last() =~= names.take(i as int));
        }
        push_str(&mut suggestions, "`");
        push_str(&mut suggestions, possible_terms[i].name.as_str());
        push_str(&mut suggestions, "`\n");
        i += 1;
    }
    suggestions
}

/// The reply to a lookup of `term` when the glossary does not hold it, given
/// the similar terms found.
pub fn term_not_found(term: &str, possible_terms: &Vec<Term>) -> (r: GlossaryReply)
    ensures
        not_found_reply(term@, possible_terms@, r),
{
    if possible_terms.len() == 0 {
        let mut description = String::new();
        push_str(&mut description, "The term `");
        push_str(&mut description, term);
        push_str(
            &mut description,
            "` was not found in the glossary. If you believe it should be included, use </glossary suggest:1135659962308243479> to suggest it for addition.",
        );
        GlossaryReply {
            title: str_to_string("Term not found"),
            description,
            field: None,
            footer: None,
            ephemeral: true,
        }
    } else if possible_terms.len() == 1 {
        let t = &possible_terms[0];
        let mut footer = String::new();
        push_str(&mut footer, "*You searched for '");
        push_str(&mut footer, term);
        push_str(&mut footer, "'. The closest term available was '");
        push_str(&mut footer, t.name.as_str());
        push_str(&mut footer, "'.");
        GlossaryReply {
            title: str_to_string(t.name.as_str()),
            description: one_liner(t.meaning.as_str()),
            field: None,
            footer: Some(footer),
            ephemeral: false,
        }
    } else {
        let mut suggestions = suggestions_text(possible_terms);
        let mut description = String::new();
        push_str(&mut description, "The term `");
        push_str(&mut description, term);
        push_str(&mut description, "` was not found in the glossary.");
        push_str(
            &mut suggestions,
            "\n*Try using </glossary search:1135659962308243479> to take advantage of a more powerful search, or use </glossary suggest:1135659962308243479> to suggest the term for addition to the glossary.*",
        );
        GlossaryReply {
            title: str_to_string("Term not found"),
            description,
            field: Some((str_to_string("Did you mean one of these?"), suggestions)),
            footer: None,
            ephemeral: true,
        }
    }
}

} // verus!

verus! {

/// `c` with an ASCII capital letter replaced by its small letter.
pub open spec fn ascii_lower(c: char) -> char {
    if 'A' <= c <= 'Z' {
        ((c as u32) + 32) as char
    } else {
        c
    }
}

/// Whether `s` begins with `prefix` when ASCII letters are compared without case.
pub open spec fn starts_with_ignoring_ascii_case(s: Seq<char>, prefix: Seq<char>) -> bool {
    &&& prefix.len() <= s.len()
    &&& forall|i: int| 0 <= i < prefix.len() ==> ascii_lower(#[trigger] s[i]) == ascii_lower(prefix[i])
}

/// The names that begin with `partial`, ignoring ASCII case, in their order.
pub open spec fn completions(names: Seq<Seq<char>>, partial: Seq<char>) -> Seq<Seq<char>>
    decreases names.len(),
{
    if names.len() == 0 {
        Seq::empty()
    } else {
        let rest = completions(names.drop_last(), partial);
        if starts_with_ignoring_ascii_case(names.last(), partial) {
            rest.push(names.last())
        } else {
            rest
        }
    }
}

pub(crate) fn to_ascii_lower(c: char) -> (r: char)
    ensures
        r == ascii_lower(c),
{
    if 'A' <= c && c <= 'Z' {
        let b: u8 = c as u8;
        (b + 32u8) as char
    } else {
        c
    }
}

fn starts_with_ci(s: &str, prefix: &Vec<char>) -> (b: bool)
    ensures
        b == starts_with_ignoring_ascii_case(s@, prefix@),
{
    let chars = chars_of(s);
    if prefix.len() > chars.len() {
        return false;
    }
    let mut i: usize = 0;
    while i < prefix.len()
        invariant
            i <= prefix@.len() <= chars@.len(),
            chars@ == s@,
            forall|k: int| 0 <= k < i ==> ascii_lower(#[trigger] chars@[k]) == ascii_lower(prefix@[k]),
        decreases prefix.len() - i,
    {
        if to_ascii_lower(chars[i]) != to_ascii_lower(prefix[i]) {
            return false;
        }
        i += 1;
    }
    true
}

/// The term names offered while `partial` is typed: those that begin with it,
/// ignoring ASCII case, in their stored order.
pub fn autocomplete(term_names: &Vec<String>, partial: &str) -> (r: Vec<String>)
    ensures
        texts(r@) == completions(texts(term_names@), partial@),
{
    let prefix = chars_of(partial);
    let ghost names = texts(term_names@);
    let mut r: Vec<String> = Vec::new();
    let mut i: usize = 0;
    while i < term_names.len()
        invariant
            i <= term_names@.len() == names.len(),
            names == texts(term_names@),
            prefix@ == partial@,
            texts(r@) == completions(names.take(i as int), partial@),
        decreases term_names.len() - i,
    {
        proof {
            assert(names.take(i as int + 1).drop_last() =~= names.take(i as int));
        }
        if starts_with_ci(term_names[i].as_str(), &prefix) {
            let name = str_to_string(term_names[i].as_str());
            let ghost before = r@;
            r.push(name);
            proof {
                assert(texts(r@) =~= texts(before).push(names[i as int]));
            }
        }
        i += 1;
    }
    assert(names.take(names.len() as int) =~= names);
    r
}

/// The names of the terms, last first: the list offered for autocompletion.
pub fn update_names(term_list: &Vec<Term>) -> (r: Vec<String>)
    ensures
        texts(r@) == term_names(term_list@).reverse(),
{
    let ghost names = term_names(term_list@);
    let mut r: Vec<String> = Vec::new();
    let mut i: usize = term_list.len();
    while i > 0
        invariant
            i <= term_list@.len() == names.len(),
            names == term_names(term_list@),
            texts(r@) == names.subrange(i as int, names.len() as int).reverse(),
        decreases i,
    {
        i -= 1;
        let name = str_to_string(term_list[i].name.as_str());
        let ghost before = r@;
        r.push(name);
        proof {
            let n = names.len() as int;
            let old_part = names.subrange(i as int + 1, n).reverse();
            let new_part = names.subrange(i as int, n).reverse();
            assert(texts(before) == old_part);
            assert forall|k: int| 0 <= k < new_part.len() implies #[trigger] new_part[k] == texts(
                before,
            ).push(names[i as int])[k] by {
                if k < old_part.len() {
                    assert(old_part[k] == names[n - 1 - k]);
                }
            }
            assert(texts(r@) =~= texts(before).push(names[i as int]));
            assert(texts(r@) =~= new_part);
        }
    }
    assert(names.subrange(0, names.len() as int) =~= names);
    r
}

} // verus!

verus! {

/// The letter a listed term is filed under: its first character (`\0` for an
/// empty name).
pub open spec fn first_letter(name: Seq<char>) -> Seq<char> {
    if name.len() > 0 {
        seq![name[0]]
    } else {
        seq!['\0']
    }
}

/// How a term is listed: its name, followed by its aliases in parentheses when
/// it has any.
pub open spec fn listed_term(name: Seq<char>, aliases: Option<Vec<String>>) -> Seq<char> {
    match aliases {
        Some(a) => if a@.len() > 0 {
            name + " ("@ + joined(texts(a@), ", "@) + ")"@
        } else {
            name
        },
        None => name,
    }
}

/// The letter and the listed text of a term.
pub fn list_entry(term: &Term) -> (r: (String, String))
    ensures
        r.0@ == first_letter(term.name@),
        r.1@ == listed_term(term.name@, term.aliases),
{
    let chars = chars_of(term.name.as_str());
    let mut letter = String::new();
    if chars.len() > 0 {
        crate::text::push_char(&mut letter, chars[0]);
    } else {
        crate::text::push_char(&mut letter, '\0');
    }
    assert(letter@ =~= first_letter(term.name@));
    let mut text = str_to_string(term.name.as_str());
    match &term.aliases {
        Some(a) => {
            if a.len() > 0 {
                push_str(&mut text, " (");
                let j = join_strings(a, ", ");
                push_str(&mut text, j.as_str());
                push_str(&mut text, ")");
            }
        },
        None => {},
    }
    (letter, text)
}

/// The pages of a list filled from its end: each page takes up to `per_page`
/// entries from the back of what is left, last entry first.
pub open spec fn chunks_from_end<A>(s: Seq<A>, per_page: nat) -> Seq<Seq<A>>
    decreases s.len(),
{
    if s.len() == 0 || per_page == 0 {
        Seq::empty()
    } else if s.len() <= per_page {
        seq![s.reverse()]
    } else {
        seq![s.subrange(s.len() - per_page, s.len() as int).reverse()] + chunks_from_end(
            s.subrange(0, s.len() - per_page),
            per_page,
        )
    }
}

/// The entries of each page.
pub open spec fn page_views<A>(pages: Seq<Vec<A>>) -> Seq<Seq<A>> {
    pages.map_values(|p: Vec<A>| p@)
}

/// Splits the listed terms into pages of `per_page`, taking them from the end
/// of the list (which holds the names in descending order).
pub fn glossary_pages(entries: Vec<(String, String)>, per_page: usize) -> (pages: Vec<
    Vec<(String, String)>,
>)
    requires
        per_page > 0,
    ensures
        page_views(pages@) == chunks_from_end(entries@, per_page as nat),
{
    let ghost all = entries@;
    let mut rest = entries;
    let mut pages: Vec<Vec<(String, String)>> = Vec::new();
    assert(page_views(pages@) + chunks_from_end(rest@, per_page as nat) =~= chunks_from_end(
        all,
        per_page as nat,
    ));
    while rest.len() > 0
        invariant
            per_page > 0,
            page_views(pages@) + chunks_from_end(rest@, per_page as nat) == chunks_from_end(
                all,
                per_page as nat,
            ),
        decreases rest.len(),
    {
        let ghost before = rest@;
        let ghost n = before.len() as int;
        let mut page: Vec<(String, String)> = Vec::new();
        let mut j: usize = 0;
        assert(page@ =~= before.subrange(n, n).reverse());
        assert(rest@ =~= before.subrange(0, n));
        while j < per_page && rest.len() > 0
            invariant
                j <= per_page,
                j <= n,
                n == before.len(),
                page@ == before.subrange(n - j, n).reverse(),
                rest@ == before.subrange(0, n - j),
            decreases per_page - j,
        {
            let t = rest.pop().unwrap();
            let ghost old_page = page@;
            page.push(t);
            j += 1;
            proof {
                assert(t == before[n - j]);
                let sub = before.subrange(n - j, n);
                assert forall|k: int| 0 <= k < j implies #[trigger] page@[k] == sub.reverse()[k] by {
                    if k < j - 1 {
                        assert(old_page[k] == before.subrange(n - j + 1, n).reverse()[k]);
                    }
                }
                assert(page@ =~= sub.reverse());
                assert(rest@ =~= before.subrange(0, n - j));
            }
        }
        proof {
            if n <= per_page {
                assert(before.subrange(0, n) =~= before);
                assert(rest@.len() == 0);
                assert(chunks_from_end(rest@, per_page as nat) =~= Seq::<Seq<(String, String)>>::empty());
            } else {
                assert(j == per_page);
            }
        }
        let ghost old_pages = pages@;
        pages.push(page);
        proof {
            assert(page_views(pages@) =~= page_views(old_pages).push(page@));
            assert(page_views(pages@) + chunks_from_end(rest@, per_page as nat) =~= page_views(
                old_pages,
            ) + chunks_from_end(before, per_page as nat));
        }
    }
    assert(chunks_from_end(rest@, per_page as nat) =~= Seq::<Seq<(String, String)>>::empty());
    assert(page_views(pages@) =~= chunks_from_end(all, per_page as nat));
    pages
}

/// The letter in force before entry `i`: the letter of the entry before it
/// (the page's own first letter for its first entry).
pub open spec fn letter_before(page: Seq<(String, String)>, i: int) -> Seq<char> {
    if i == 0 {
        page[0].0@
    } else {
        page[i - 1].0@
    }
}

/// The line of entry `i`: preceded by a letter heading when its letter differs
/// from the one in force.
pub open spec fn entry_line(page: Seq<(String, String)>, i: int) -> Seq<char> {
    if page[i].0@ == letter_before(page, i) {
        "- "@ + page[i].1@ + "\n"@
    } else {
        "-# "@ + page[i].0@ + "\n- "@ + page[i].1@ + "\n"@
    }
}

/// The lines of the first `k` entries.
pub open spec fn entry_lines(page: Seq<(String, String)>, k: int) -> Seq<char>
    decreases k,
{
    if k <= 0 {
        Seq::empty()
    } else {
        entry_lines(page, k - 1) + entry_line(page, k - 1)
    }
}

/// The text of a page of the glossary list.
pub open spec fn glossary_page_text(page: Seq<(String, String)>, glossary_info: Seq<char>) -> Seq<char> {
    "-# Terms in parentheses are aliases for the preceding term. Use "@ + glossary_info
        + " with any term or alias to read the full entry.\n\n-# "@ + page[0].0@ + "\n"@
        + entry_lines(page, page.len() as int) + "** **\n\n"@
}

/// The text of a page of the glossary list; `glossary_info` is how the
/// command that shows an entry is written.
pub fn page_text(page: &Vec<(String, String)>, glossary_info: &str) -> (s: String)
    requires
        page@.len() > 0,
    ensures
        s@ == glossary_page_text(page@, glossary_info@),
{
    let mut s = String::new();
    push_str(&mut s, "-# Terms in parentheses are aliases for the preceding term. Use ");
    push_str(&mut s, glossary_info);
    push_str(&mut s, " with any term or alias to read the full entry.\n\n-# ");
    push_str(&mut s, page[0].0.as_str());
    push_str(&mut s, "\n");
    let ghost head = s@;
    let mut letter: String = page[0].0.clone();
    let mut i: usize = 0;
    while i < page.len()
        invariant
            i <= page@.len(),
            page@.len() > 0,
            s@ == head + entry_lines(page@, i as int),
            letter@ == letter_before(page@, i as int),
        decreases page.len() - i,
    {
        let ghost before = s@;
        if page[i].0 == letter {
            push_str(&mut s, "- ");
            push_str(&mut s, page[i].1.as_str());
            push_str(&mut s, "\n");
        } else {
            push_str(&mut s, "-# ");
            push_str(&mut s, page[i].0.as_str());
            push_str(&mut s, "\n- ");
            push_str(&mut s, page[i].1.as_str());
            push_str(&mut s, "\n");
        }
        letter = page[i].0.clone();
        proof {
            assert(s@ =~= before + entry_line(page@, i as int));
        }
        i += 1;
    }
    push_str(&mut s, "** **\n\n");
    s
}

/// The last entry number shown on page `current` (counted from 0).
pub open spec fn last_shown(current: int, per_page: int, term_count: int) -> int {
    if term_count / ((current + 1) * per_page) > 0 {
        (current + 1) * per_page
    } else {
        term_count
    }
}

/// The footer of a page of the glossary list.
pub fn glossary_footer(current: usize, total_pages: usize, per_page: usize, term_count: usize) -> (s:
    String)
    requires
        per_page > 0,
        (current + 1) * per_page <= usize::MAX,
    ensures
        s@ == "Page "@ + nat_decimal((current + 1) as nat) + " of "@ + nat_decimal(
            total_pages as nat,
        ) + "・Terms "@ + nat_decimal((current * per_page + 1) as nat) + "-"@ + nat_decimal(
            last_shown(current as int, per_page as int, term_count as int) as nat,
        ) + "・Total Terms: "@ + nat_decimal(term_count as nat),
{
    assert(current + 1 <= (current + 1) * per_page) by (nonlinear_arith)
        requires
            per_page >= 1,
    ;
    assert(current * per_page + 1 <= (current + 1) * per_page) by (nonlinear_arith)
        requires
            per_page >= 1,
    ;
    let shown_to = (current + 1) * per_page;
    let last = if term_count / shown_to > 0 {
        shown_to
    } else {
        term_count
    };
    let mut s = String::new();
    push_str(&mut s, "Page ");
    push_u64(&mut s, (current + 1) as u64);
    push_str(&mut s, " of ");
    push_u64(&mut s, total_pages as u64);
    push_str(&mut s, "・Terms ");
    push_u64(&mut s, (current * per_page + 1) as u64);
    push_str(&mut s, "-");
    push_u64(&mut s, last as u64);
    push_str(&mut s, "・Total Terms: ");
    push_u64(&mut s, term_count as u64);
    s
}

} // verus!

verus! {

proof fn lemma_split_without_separator(b: Seq<char>, sep: char)
    requires
        forall|i: int| 0 <= i < b.len() ==> b[i] != sep,
    ensures
        split_on(b, sep) == seq![b],
    decreases b.len(),
{
    if b.len() > 0 {
        lemma_split_without_separator(b.drop_last(), sep);
        assert(b.drop_last().push(b.last()) =~= b);
        assert(split_on(b, sep) =~= seq![b]);
    } else {
        assert(b =~= Seq::<char>::empty());
    }
}

proof fn lemma_split_around_separator(a: Seq<char>, b: Seq<char>, sep: char)
    ensures
        split_on(a.push(sep) + b, sep) == split_on(a, sep) + split_on(b, sep),
    decreases b.len(),
{
    let s = a.push(sep) + b;
    if b.len() == 0 {
        assert(s =~= a.push(sep));
        assert(s.drop_last() =~= a);
        assert(split_on(s, sep) =~= split_on(a, sep) + split_on(b, sep));
    } else {
        lemma_split_around_separator(a, b.drop_last(), sep);
        assert(s.drop_last() =~= a.push(sep) + b.drop_last());
        assert(s.last() == b.last());
        let left = split_on(a, sep);
        let right = split_on(b.drop_last(), sep);
        lemma_split_on_nonempty(b.drop_last(), sep);
        if b.last() == sep {
            assert(split_on(s, sep) =~= left + split_on(b, sep));
        } else {
            let whole = left + right;
            assert(split_on(s, sep) == whole.update(whole.len() - 1, whole.last().push(b.last())));
            assert(split_on(b, sep) == right.update(right.len() - 1, right.last().push(b.last())));
            assert(split_on(s, sep) =~= left + split_on(b, sep));
        }
    }
}

/// The pieces of a `, `-joined list split on commas: the first item, then each
/// later item with the space that followed its comma.
pub open spec fn spaced(items: Seq<Seq<char>>) -> Seq<Seq<char>> {
    Seq::new(items.len(), |i: int| if i == 0 { items[0] } else { " "@ + items[i] })
}

proof fn lemma_split_joined(items: Seq<Seq<char>>)
    requires
        items.len() > 0,
        forall|i: int, j: int| 0 <= i < items.len() && 0 <= j < items[i].len() ==> items[i][j] != ',',
    ensures
        split_on(joined(items, ", "@), ',') == spaced(items),
    decreases items.len(),
{
    reveal_strlit(", ");
    reveal_strlit(" ");
    if items.len() == 1 {
        lemma_split_without_separator(items[0], ',');
        assert(spaced(items) =~= seq![items[0]]);
    } else {
        let init = items.drop_last();
        lemma_split_joined(init);
        let tail = " "@ + items.last();
        assert forall|j: int| 0 <= j < tail.len() implies tail[j] != ',' by {
            if j > 0 {
                assert(tail[j] == items[items.len() - 1][j - 1]);
            }
        }
        lemma_split_without_separator(tail, ',');
        assert(joined(items, ", "@) =~= joined(init, ", "@).push(',') + tail);
        lemma_split_around_separator(joined(init, ", "@), tail, ',');
        assert(spaced(items) =~= spaced(init) + seq![tail]);
    }
}

proof fn lemma_trim_start_shortens(s: Seq<char>)
    ensures
        trim_start(s).len() <= s.len(),
        trim_start(s).len() == s.len() ==> trim_start(s) == s,
    decreases s.len(),
{
    if s.len() > 0 && is_white_space(s[0]) {
        lemma_trim_start_shortens(s.drop_first());
    }
}

proof fn lemma_trim_end_shortens(s: Seq<char>)
    ensures
        trim_end(s).len() <= s.len(),
    decreases s.len(),
{
    if s.len() > 0 && is_white_space(s.last()) {
        lemma_trim_end_shortens(s.drop_last());
    }
}

proof fn lemma_trimmed_after_space(x: Seq<char>)
    requires
        trimmed(x) == x,
    ensures
        trimmed(" "@ + x) == x,
{
    reveal_strlit(" ");
    lemma_trim_start_shortens(x);
    lemma_trim_end_shortens(trim_start(x));
    assert(trim_start(x) == x);
    let y = " "@ + x;
    assert(y[0] == ' ');
    assert(y.drop_first() =~= x);
}

/// Joining a list with `, ` and reading it back as a comma-separated list gives
/// the list again, when it is not empty and its items hold no comma and no
/// surrounding white space: the modal of a term gives back the term's links
/// and aliases.
pub proof fn lemma_comma_list_round_trip(items: Seq<Seq<char>>)
    requires
        items.len() > 0,
        forall|i: int, j: int| 0 <= i < items.len() && 0 <= j < items[i].len() ==> items[i][j] != ',',
        forall|i: int| 0 <= i < items.len() ==> trimmed(#[trigger] items[i]) == items[i],
    ensures
        comma_list(joined(items, ", "@)) == items,
{
    lemma_split_joined(items);
    assert forall|i: int| 0 <= i < items.len() implies trimmed(#[trigger] spaced(items)[i]) == items[i] by {
        if i > 0 {
            lemma_trimmed_after_space(items[i]);
        }
    }
    assert(comma_list(joined(items, ", "@)) =~= items);
}

} // verus!

verus! {

/// The pages of the glossary list hold every listed term exactly once, from
/// the last to the first, and each page holds between one and `per_page` of them.
pub proof fn lemma_glossary_pages_partition<A>(s: Seq<A>, per_page: nat)
    requires
        per_page > 0,
    ensures
        chunks_from_end(s, per_page).flatten() == s.reverse(),
        forall|k: int|
            0 <= k < chunks_from_end(s, per_page).len() ==> 0 < (
            #[trigger] chunks_from_end(s, per_page)[k]).len() <= per_page,
    decreases s.len(),
{
    let c = chunks_from_end(s, per_page);
    if s.len() == 0 {
        assert(s.reverse() =~= Seq::<A>::empty());
    } else if s.len() <= per_page {
        assert(c =~= seq![s.reverse()]);
        assert(c.drop_first() =~= Seq::<Seq<A>>::empty());
        assert(c.drop_first().flatten() =~= Seq::<A>::empty());
        assert(c.first() == s.reverse());
        assert(c.flatten() =~= s.reverse());
    } else {
        let n = s.len() as int;
        let head = s.subrange(n - per_page, n);
        let rest = s.subrange(0, n - per_page);
        lemma_glossary_pages_partition(rest, per_page);
        assert(c.first() == head.reverse());
        assert(c.drop_first() =~= chunks_from_end(rest, per_page));
        assert(s.reverse() =~= head.reverse() + rest.reverse());
        assert forall|k: int| 0 <= k < c.len() implies 0 < (#[trigger] c[k]).len() <= per_page by {
            if k > 0 {
                assert(c[k] == chunks_from_end(rest, per_page)[k - 1]);
            }
        }
    }
}

} // verus!

verus! {

/// An embed showing a glossary term, or that it was not found.
pub struct TermEmbed {
    pub title: String,
    pub description: String,
    pub fields: Vec<(String, String)>,
    pub footer: Option<String>,
}

/// The links of a term, numbered from zero, one per line.
pub open spec fn numbered_links(links: Seq<Seq<char>>) -> Seq<char>
    decreases links.len(),
{
    if links.len() == 0 {
        Seq::empty()
    } else {
        numbered_links(links.drop_last()) + nat_decimal((links.len() - 1) as nat) + ". "@ + links.last() + "\n"@
    }
}

/// The fields of a term's embed: its usage, its links (when there are any)
/// and its aliases (when there are any), in that order.
pub open spec fn term_fields(t: Term) -> Seq<(Seq<char>, Seq<char>)> {
    let usage = match t.usage {
        Some(u) => seq![("Example of Usage:"@, u@)],
        None => Seq::empty(),
    };
    let links = match t.links {
        Some(l) => if l@.len() > 0 {
            seq![("Related Resources:"@, numbered_links(texts(l@)))]
        } else {
            Seq::empty()
        },
        None => Seq::empty(),
    };
    let aliases = match t.aliases {
        Some(a) => if a@.len() > 0 {
            seq![("Aliases:"@, joined(texts(a@), ", "@))]
        } else {
            Seq::empty()
        },
        None => Seq::empty(),
    };
    usage + links + aliases
}

/// The texts of an embed's fields.
pub open spec fn field_texts(fields: Seq<(String, String)>) -> Seq<(Seq<char>, Seq<char>)> {
    fields.map_values(|f: (String, String)| (f.0@, f.1@))
}

/// The embed of a term: its name, meaning, fields and categories.
pub open spec fn term_embed_of(t: Term, e: TermEmbed) -> bool {
    &&& e.title@ == t.name@
    &&& e.description@ == t.meaning@
    &&& field_texts(e.fields@) == term_fields(t)
    &&& match t.category {
        Some(c) => e.footer matches Some(f) && f@ == "Categories: "@ + c@,
        None => e.footer is None,
    }
}

fn numbered_links_text(links: &Vec<String>) -> (s: String)
    ensures
        s@ == numbered_links(texts(links@)),
{
    let mut s = String::new();
    let mut i: usize = 0;
    while i < links.len()
        invariant
            i <= links@.len(),
            s@ == numbered_links(texts(links@).take(i as int)),
        decreases links.len() - i,
    {
        proof {
            let t = texts(links@).take(i as int + 1);
            assert(t.drop_last() =~= texts(links@).take(i as int));
            assert(t.last() == links@[i as int]@);
        }
        push_u64(&mut s, i as u64);
        push_str(&mut s, ". ");
        push_str(&mut s, links[i].as_str());
        push_str(&mut s, "\n");
        i += 1;
    }
    assert(texts(links@).take(links@.len() as int) =~= texts(links@));
    s
}

/// The embed showing a term (see [`term_embed_of`]).
pub fn term_embed(t: &Term) -> (e: TermEmbed)
    ensures
        term_embed_of(*t, e),
{
    let mut fields: Vec<(String, String)> = Vec::new();
    let ghost mut expected: Seq<(Seq<char>, Seq<char>)> = Seq::empty();
    match &t.usage {
        Some(u) => {
            fields.push((str_to_string("Example of Usage:"), str_to_string(u.as_str())));
            proof {
                expected = seq![("Example of Usage:"@, u@)];
            }
        },
        None => {},
    }
    assert(field_texts(fields@) =~= expected);
    match &t.links {
        Some(l) => {
            if l.len() > 0 {
                fields.push((str_to_string("Related Resources:"), numbered_links_text(l)));
                proof {
                    expected = expected + seq![("Related Resources:"@, numbered_links(texts(l@)))];
                }
            }
        },
        None => {},
    }
    assert(field_texts(fields@) =~= expected);
    match &t.aliases {
        Some(a) => {
            if a.len() > 0 {
                fields.push((str_to_string("Aliases:"), join_strings(a, ", ")));
                proof {
                    expected = expected + seq![("Aliases:"@, joined(texts(a@), ", "@))];
                }
            }
        },
        None => {},
    }
    assert(field_texts(fields@) =~= expected);
    assert(expected =~= term_fields(*t));
    let footer = match &t.category {
        Some(c) => {
            let mut f = String::new();
            push_str(&mut f, "Categories: ");
            push_str(&mut f, c.as_str());
            Some(f)
        },
        None => None,
    };
    TermEmbed { title: str_to_string(t.name.as_str()), description: str_to_string(t.meaning.as_str()), fields, footer }
}

/// The footer of the embed of the term closest to the one searched for.
pub open spec fn closest_term_footer(searched: Seq<char>, t: Term) -> Seq<char> {
    let note = "*You searched for '"@ + searched + "'. The closest term available was '"@ + t.name@ + "'."@;
    match t.category {
        Some(c) => "Categories: "@ + c@ + "\n\n"@ + note,
        None => note,
    }
}

/// The answer of the glossary's `info` for `term`: the term's embed when
/// found; else, with one similar term, that term's embed noting the search;
/// with none, that it was not found; with more, up to five of their names and
/// a pointer to the search command.
pub open spec fn info_reply(
    term: Seq<char>,
    found: Option<Term>,
    possible: Seq<Term>,
    commands: Option<Seq<crate::common::MinimalCommand>>,
    e: TermEmbed,
) -> bool {
    match found {
        Some(t) => term_embed_of(t, e),
        None => if possible.len() == 1 {
            let t = possible[0];
            &&& e.title@ == t.name@
            &&& e.description@ == t.meaning@
            &&& field_texts(e.fields@) == term_fields(t)
            &&& e.footer matches Some(f) && f@ == closest_term_footer(term, t)
        } else {
            &&& e.title@ == "Term not found"@
            &&& e.description@ == "The term `"@ + term + "` was not found in the glossary."@
            &&& e.footer is None
            &&& if possible.len() == 0 {
                e.fields@.len() == 0
            } else {
                &&& e.fields@.len() == 1
                &&& e.fields@[0].0@ == "Did you mean one of these?"@
                &&& e.fields@[0].1@ == suggestion_list(possible) + "\n*Try using "@ + crate::common::command_mention(
                    commands,
                    "glossary search"@,
                ) + " to take advantage of a more powerful search.*"@
            }
        },
    }
}

/// The answer of the glossary's `info` (see [`info_reply`]); `found` is the
/// term looked up, `possible_terms` the similar ones when it was not found.
pub fn glossary_info(
    term: &str,
    found: Option<&Term>,
    possible_terms: &Vec<Term>,
    commands: Option<&Vec<crate::common::MinimalCommand>>,
) -> (e: TermEmbed)
    ensures
        info_reply(
            term@,
            match found {
                Some(t) => Some(*t),
                None => None,
            },
            possible_terms@,
            match commands {
                Some(c) => Some(c@),
                None => None,
            },
            e,
        ),
{
    match found {
        Some(t) => return term_embed(t),
        None => {},
    }
    if possible_terms.len() == 1 {
        let t = &possible_terms[0];
        let e = term_embed(t);
        let mut f = String::new();
        match &t.category {
            Some(c) => {
                push_str(&mut f, "Categories: ");
                push_str(&mut f, c.as_str());
                push_str(&mut f, "\n\n");
            },
            None => {},
        }
        push_str(&mut f, "*You searched for '");
        push_str(&mut f, term);
        push_str(&mut f, "'. The closest term available was '");
        push_str(&mut f, t.name.as_str());
        push_str(&mut f, "'.");
        assert(f@ =~= closest_term_footer(term@, *t));
        return TermEmbed { title: e.title, description: e.description, fields: e.fields, footer: Some(f) };
    }
    let mut description = String::new();
    push_str(&mut description, "The term `");
    push_str(&mut description, term);
    push_str(&mut description, "` was not found in the glossary.");
    let mut fields: Vec<(String, String)> = Vec::new();
    if possible_terms.len() > 1 {
        let mut text = suggestions_text(possible_terms);
        push_str(&mut text, "\n*Try using ");
        let c = crate::common::print_command(commands, "glossary search");
        push_str(&mut text, c.as_str());
        push_str(&mut text, " to take advantage of a more powerful search.*");
        fields.push((str_to_string("Did you mean one of these?"), text));
    }
    TermEmbed { title: str_to_string("Term not found"), description, fields, footer: None }
}

} // verus!

verus! {

/// The meaning shown in a search result: one of more than 979 bytes is cut to
/// its first 976 characters and an ellipsis, to fit the field.
pub open spec fn result_meaning(m: Seq<char>) -> Seq<char> {
    if crate::erase::utf8_len(m) > 979 {
        m.take(if m.len() < 976 { m.len() as int } else { 976 }) + "..."@
    } else {
        m
    }
}

/// A field of the search results: the term's rank and name, its meaning (see
/// [`result_meaning`]) and the estimated relevance.
pub fn search_result_field(index: usize, name: &str, meaning: &str, relevance: &str) -> (f: (String, String))
    requires
        index < usize::MAX,
    ensures
        f.0@ == "Term "@ + nat_decimal((index + 1) as nat) + ": `"@ + name@ + "`"@,
        f.1@ == result_meaning(meaning@) + "\n```Estimated relevance: "@ + relevance@ + "```\n** **"@,
{
    let mut title = String::new();
    push_str(&mut title, "Term ");
    push_u64(&mut title, (index + 1) as u64);
    push_str(&mut title, ": `");
    push_str(&mut title, name);
    push_str(&mut title, "`");
    let v = chars_of(meaning);
    let mut text = String::new();
    if crate::erase::utf8_len_exceeds(&v, 979) {
        let n: usize = if v.len() < 976 { v.len() } else { 976 };
        let mut i: usize = 0;
        while i < n
            invariant
                i <= n <= v@.len(),
                text@ == v@.take(i as int),
            decreases n - i,
        {
            crate::text::push_char(&mut text, v[i]);
            assert(text@ =~= v@.take(i as int + 1));
            i += 1;
        }
        push_str(&mut text, "...");
    } else {
        push_str(&mut text, meaning);
    }
    push_str(&mut text, "\n```Estimated relevance: ");
    push_str(&mut text, relevance);
    push_str(&mut text, "```\n** **");
    (title, text)
}

/// The title of the search results.
pub fn search_title(search: &str) -> (s: String)
    ensures
        s@ == "Search results for `"@ + search@ + "`"@,
{
    let mut s = String::new();
    push_str(&mut s, "Search results for `");
    push_str(&mut s, search);
    push_str(&mut s, "`");
    s
}

/// The description of search results that returned no term.
pub fn no_terms_found() -> (s: String)
    ensures
        s@ == "No terms were found. Try browsing the glossary with `/glossary list`."@,
{
    str_to_string("No terms were found. Try browsing the glossary with `/glossary list`.")
}

/// The footer of the search results: how long the search took.
pub fn search_footer(millis: u64) -> (s: String)
    ensures
        s@ == "Search took "@ + nat_decimal(millis as nat) + "ms"@,
{
    let mut s = String::new();
    push_str(&mut s, "Search took ");
    push_u64(&mut s, millis);
    push_str(&mut s, "ms");
    s
}

/// The log entry of a suggested term: its description and footer, naming the
/// member who suggested it.
pub fn suggestion_log(suggestion: &str, author_name: &str, author_id: u64) -> (r: (String, String))
    ensures
        r.0@ == "**Suggestion**: "@ + suggestion@,
        r.1@ == "Suggested by "@ + author_name@ + " ("@ + nat_decimal(author_id as nat) + ")"@,
{
    let mut d = String::new();
    push_str(&mut d, "**Suggestion**: ");
    push_str(&mut d, suggestion);
    let mut f = String::new();
    push_str(&mut f, "Suggested by ");
    push_str(&mut f, author_name);
    push_str(&mut f, " (");
    push_u64(&mut f, author_id);
    push_str(&mut f, ")");
    (d, f)
}

} // verus!

verus! {

/// The text a term's embedding is computed from: its name and meaning.
pub fn embedding_text(name: &str, meaning: &str) -> (s: String)
    ensures
        s@ == name@ + " "@ + meaning@,
{
    let mut s = String::new();
    push_str(&mut s, name);
    push_str(&mut s, " ");
    push_str(&mut s, meaning);
    s
}

/// An edited term needs a new embedding only when its meaning changed.
pub fn needs_new_embedding(old_meaning: &str, new_meaning: &str) -> (b: bool)
    ensures
        b == (old_meaning@ != new_meaning@),
{
    !(str_to_string(old_meaning) == str_to_string(new_meaning))
}

} // verus!

verus! {

/// Each name in backticks, the names joined by line breaks.
pub open spec fn backticked_names(names: Seq<Seq<char>>) -> Seq<char> {
    joined(names.map_values(|n: Seq<char>| "`"@ + n + "`"@), "\n"@)
}

/// The note when a term to edit or remove does not exist, with the similar
/// terms found: all of them when several, the one when one.
pub fn missing_term_notice(possible_terms: &Vec<Term>) -> (s: String)
    ensures
        s@ == "<:mminfo:1279517292455264359> Term does not exist."@ + if possible_terms@.len() > 1 {
            " Did you mean one of these?\n"@ + backticked_names(term_names(possible_terms@))
        } else if possible_terms@.len() == 1 {
            " Did you mean `"@ + possible_terms@[0].name@ + "`?"@
        } else {
            Seq::<char>::empty()
        },
{
    let mut s = String::new();
    push_str(&mut s, "<:mminfo:1279517292455264359> Term does not exist.");
    let ghost head = s@;
    if possible_terms.len() > 1 {
        let mut quoted: Vec<String> = Vec::new();
        let mut i: usize = 0;
        let ghost names = term_names(possible_terms@);
        while i < possible_terms.len()
            invariant
                i <= possible_terms@.len(),
                names == term_names(possible_terms@),
                texts(quoted@) == names.take(i as int).map_values(|n: Seq<char>| "`"@ + n + "`"@),
            decreases possible_terms.len() - i,
        {
            let mut q = String::new();
            push_str(&mut q, "`");
            push_str(&mut q, possible_terms[i].name.as_str());
            push_str(&mut q, "`");
            let ghost prev = quoted@;
            quoted.push(q);
            assert(texts(quoted@) =~= texts(prev).push(q@));
            assert(names.take(i as int + 1).map_values(|n: Seq<char>| "`"@ + n + "`"@) =~= names.take(
                i as int,
            ).map_values(|n: Seq<char>| "`"@ + n + "`"@).push("`"@ + names[i as int] + "`"@));
            i += 1;
        }
        assert(names.take(names.len() as int) =~= names);
        push_str(&mut s, " Did you mean one of these?\n");
        let list = join_strings(&quoted, "\n");
        push_str(&mut s, list.as_str());
    } else if possible_terms.len() == 1 {
        push_str(&mut s, " Did you mean `");
        push_str(&mut s, possible_terms[0].name.as_str());
        push_str(&mut s, "`?");
    } else {
        assert(s@ =~= head + Seq::<char>::empty());
    }
    s
}

} // verus!

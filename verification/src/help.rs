//! The help menu: one command with its subcommands, or every command grouped
//! by category, and the completion of command names.
use vstd::prelude::*;
use crate::config::SECRET_CATEGORY;
use crate::glossary::ascii_lower;
use crate::parse::chars_of;
use crate::text::{push_char, push_str, str_to_string};

verus! {

/// The insertion-ordered map that groups commands by category.
#[verifier::external_type_specification]
#[verifier::external_body]
#[verifier::reject_recursive_types(K)]
#[verifier::reject_recursive_types(V)]
#[verifier::reject_recursive_types(S)]
pub struct ExIndexMap<K, V, S>(indexmap::IndexMap<K, V, S>);

/// Groups in order of first appearance: each key (by its text) with the items
/// filed under it, in the order they were filed.
pub type Groups = Seq<(Option<Seq<char>>, Seq<usize>)>;

/// The text of an optional string.
pub open spec fn opt_view(k: Option<String>) -> Option<Seq<char>> {
    match k {
        Some(s) => Some(s@),
        None => None,
    }
}

/// What a grouping map holds, in its order.
pub uninterp spec fn group_entries(m: indexmap::IndexMap<Option<String>, Vec<usize>>) -> Groups;

/// The position of the group with key `k` at or after `i`.
pub open spec fn find_key_from(g: Groups, k: Option<Seq<char>>, i: int) -> Option<int>
    decreases g.len() - i,
{
    if i < 0 || i >= g.len() {
        None
    } else if g[i].0 == k {
        Some(i)
    } else {
        find_key_from(g, k, i + 1)
    }
}

/// Filing `item` under `key`: appended to its group, or a new last group.
pub open spec fn file_item(g: Groups, key: Option<Seq<char>>, item: usize) -> Groups {
    match find_key_from(g, key, 0) {
        Some(i) => g.update(i, (g[i].0, g[i].1.push(item))),
        None => g.push((key, seq![item])),
    }
}

/// The groups formed by filing each item under its key, in order.
pub open spec fn grouped(pairs: Seq<(Option<Seq<char>>, usize)>) -> Groups
    decreases pairs.len(),
{
    if pairs.len() == 0 {
        Seq::empty()
    } else {
        file_item(grouped(pairs.drop_last()), pairs.last().0, pairs.last().1)
    }
}

/// An empty map, `IndexMap::new()`.
#[verifier::external_body]
fn new_groups() -> (m: indexmap::IndexMap<Option<String>, Vec<usize>>)
    ensures
        group_entries(m) == Seq::<(Option<Seq<char>>, Seq<usize>)>::empty(),
{
    indexmap::IndexMap::new()
}

/// Files `item` under `key` with `map.entry(key).or_default().push(item)`: an
/// equal key keeps its place and gains the item at the end of its list, a new
/// key is added last with a list of the item alone.
#[verifier::external_body]
fn file_into(m: &mut indexmap::IndexMap<Option<String>, Vec<usize>>, key: Option<String>, item: usize)
    ensures
        group_entries(*final(m)) == file_item(group_entries(*old(m)), opt_view(key), item),
{
    m.entry(key).or_default().push(item);
}

/// The groups in their order (`IntoIterator` of the map).
#[verifier::external_body]
fn into_groups(m: indexmap::IndexMap<Option<String>, Vec<usize>>) -> (v: Vec<(Option<String>, Vec<usize>)>)
    ensures
        v@.len() == group_entries(m).len(),
        forall|i: int|
            0 <= i < v@.len() ==> opt_view(#[trigger] v@[i].0) == group_entries(m)[i].0 && v@[i].1@
                == group_entries(m)[i].1,
{
    m.into_iter().collect()
}

/// The pairs of keys and items.
pub open spec fn key_item_pairs(keys: Seq<Option<String>>, items: Seq<usize>) -> Seq<(Option<Seq<char>>, usize)> {
    Seq::new(keys.len(), |i: int| (opt_view(keys[i]), items[i]))
}

/// The groups of a list of groups as values.
pub open spec fn groups_view(v: Seq<(Option<String>, Vec<usize>)>) -> Groups {
    v.map_values(|p: (Option<String>, Vec<usize>)| (opt_view(p.0), p.1@))
}

fn copy_key(k: &Option<String>) -> (r: Option<String>)
    ensures
        opt_view(r) == opt_view(*k),
{
    match k {
        Some(s) => Some(str_to_string(s.as_str())),
        None => None,
    }
}

/// Files each item under its key, keys kept in order of first appearance.
pub fn group_by_key(keys: &Vec<Option<String>>, items: &Vec<usize>) -> (v: Vec<(Option<String>, Vec<usize>)>)
    requires
        keys@.len() == items@.len(),
    ensures
        groups_view(v@) == grouped(key_item_pairs(keys@, items@)),
{
    let ghost pairs = key_item_pairs(keys@, items@);
    let mut m = new_groups();
    let mut i: usize = 0;
    assert(pairs.take(0) =~= Seq::<(Option<Seq<char>>, usize)>::empty());
    while i < keys.len()
        invariant
            i <= keys@.len() == items@.len(),
            pairs == key_item_pairs(keys@, items@),
            group_entries(m) == grouped(pairs.take(i as int)),
        decreases keys.len() - i,
    {
        proof {
            assert(pairs.take(i as int + 1).drop_last() =~= pairs.take(i as int));
        }
        let k = copy_key(&keys[i]);
        file_into(&mut m, k, items[i]);
        i += 1;
    }
    assert(pairs.take(keys@.len() as int) =~= pairs);
    let v = into_groups(m);
    assert(groups_view(v@) =~= grouped(pairs));
    v
}

} // verus!

verus! {

/// The kind of a context-menu command.
#[derive(Debug, Clone, Copy, PartialEq, Eq, Structural)]
pub enum ContextMenuKind {
    User,
    Message,
    /// Another kind, not listed.
    Other,
}

/// What the help menu reads of a subcommand.
pub struct SubcommandInfo {
    pub name: String,
    pub description: Option<String>,
    pub help_text: Option<String>,
}

/// What the help menu reads of a command.
pub struct CommandInfo {
    pub name: String,
    pub context_menu_name: Option<String>,
    pub description: Option<String>,
    pub help_text: Option<String>,
    pub category: Option<String>,
    /// The command requires permissions.
    pub requires_permissions: bool,
    pub context_menu: Option<ContextMenuKind>,
    pub guild_only: bool,
    pub hide_in_help: bool,
    pub subcommands: Vec<SubcommandInfo>,
}

/// The settings of the help menu.
pub struct Help {
    pub footer_text: String,
    pub ephemeral: bool,
    pub show_context_menu_commands: bool,
    pub elevated_permissions: bool,
    pub secret_category: String,
}

/// The help embed: an optional title and description, fields, optional footer.
pub struct HelpEmbed {
    pub title: Option<String>,
    pub description: Option<String>,
    pub fields: Vec<(String, String)>,
    pub footer: Option<String>,
}

/// The answer of the help menu about one command.
pub enum HelpReply {
    /// The text telling that no such command can be shown.
    NotFound(String),
    Found(HelpEmbed),
}

/// The help of a command: its help text, else its description.
pub open spec fn help_of(help_text: Option<String>, description: Option<String>) -> Seq<char> {
    match help_text {
        Some(h) => h@,
        None => match description {
            Some(d) => d@,
            None => "No help available"@,
        },
    }
}

/// Two names that are equal when ASCII letters are compared without case.
pub open spec fn eq_ignore_ascii_case(a: Seq<char>, b: Seq<char>) -> bool {
    a.len() == b.len() && forall|i: int| 0 <= i < a.len() ==> ascii_lower(#[trigger] a[i]) == ascii_lower(b[i])
}

/// A command is looked up by its name or its context-menu name.
pub open spec fn answers_to(c: CommandInfo, name: Seq<char>) -> bool {
    eq_ignore_ascii_case(c.name@, name) || match c.context_menu_name {
        Some(n) => eq_ignore_ascii_case(n@, name),
        None => false,
    }
}

/// The first command at or after `i` that answers to `name`.
pub open spec fn find_command_from(cs: Seq<CommandInfo>, name: Seq<char>, i: int) -> Option<int>
    decreases cs.len() - i,
{
    if i < 0 || i >= cs.len() {
        None
    } else if answers_to(cs[i], name) {
        Some(i)
    } else {
        find_command_from(cs, name, i + 1)
    }
}

fn same_ignoring_ascii_case(a: &str, b: &Vec<char>) -> (r: bool)
    ensures
        r == eq_ignore_ascii_case(a@, b@),
{
    let x = chars_of(a);
    if x.len() != b.len() {
        return false;
    }
    let mut i: usize = 0;
    while i < x.len()
        invariant
            i <= x@.len() == b@.len(),
            x@ == a@,
            forall|k: int| 0 <= k < i ==> ascii_lower(#[trigger] x@[k]) == ascii_lower(b@[k]),
        decreases x.len() - i,
    {
        if crate::glossary::to_ascii_lower(x[i]) != crate::glossary::to_ascii_lower(b[i]) {
            return false;
        }
        i += 1;
    }
    true
}

fn command_answers(c: &CommandInfo, name: &Vec<char>) -> (r: bool)
    ensures
        r == answers_to(*c, name@),
{
    if same_ignoring_ascii_case(c.name.as_str(), name) {
        return true;
    }
    match &c.context_menu_name {
        Some(n) => same_ignoring_ascii_case(n.as_str(), name),
        None => false,
    }
}

/// Whether a category is the secret one.
pub open spec fn is_secret(category: Option<String>, secret: Seq<char>) -> bool {
    match category {
        Some(c) => c@ == secret,
        None => false,
    }
}

fn category_is(category: &Option<String>, secret: &String) -> (r: bool)
    ensures
        r == is_secret(*category, secret@),
{
    match category {
        Some(c) => *c == *secret,
        None => false,
    }
}

/// The name a command is shown under and its prefix: context-menu commands
/// by their menu name without a slash.
pub open spec fn shown_name(c: CommandInfo) -> (Seq<char>, Seq<char>) {
    if c.context_menu is Some {
        (Seq::empty(), match c.context_menu_name {
            Some(n) => n@,
            None => c.name@,
        })
    } else {
        ("/"@, c.name@)
    }
}

/// The subcommand groups of a command: each distinct name, in order of first
/// appearance, with every subcommand of that name.
pub open spec fn subcommand_groups(subs: Seq<SubcommandInfo>) -> Groups {
    grouped(Seq::new(subs.len(), |i: int| (Some(subs[i].name@), i as usize)))
}

/// The help reply about one command, or why it is not shown.
pub open spec fn single_command_reply(h: Help, cs: Seq<CommandInfo>, name: Seq<char>, r: HelpReply) -> bool {
    let not_found = "<:mminfo:1279517292455264359> Command not found: `"@ + name + "`"@;
    match find_command_from(cs, name, 0) {
        None => r matches HelpReply::NotFound(t) && t@ == not_found,
        Some(i) => {
            let c = cs[i];
            if is_secret(c.category, h.secret_category@) || (!h.elevated_permissions && c.requires_permissions)
                || (c.context_menu is Some && !h.show_context_menu_commands) {
                r matches HelpReply::NotFound(t) && t@ == not_found
            } else {
                let (prefix, shown) = shown_name(c);
                let subs = c.subcommands@;
                let groups = subcommand_groups(subs);
                let help = help_of(c.help_text, c.description);
                &&& r is Found
                &&& r->Found_0.title matches Some(t) && t@ == prefix + shown
                &&& r->Found_0.description matches Some(d) && d@ == (if subs.len() == 0 {
                    help
                } else {
                    help + "\n\nSubcommands:"@
                })
                &&& r->Found_0.footer is None
                &&& r->Found_0.fields@.len() == groups.len()
                &&& forall|k: int| 0 <= k < groups.len() ==> {
                    let g = #[trigger] groups[k];
                    let sub = subs[g.1.last() as int];
                    &&& r->Found_0.fields@[k].0@ == prefix + shown + " "@ + sub.name@
                    &&& r->Found_0.fields@[k].1@ == "```"@ + help_of(sub.help_text, sub.description) + "```"@
                }
            }
        },
    }
}

fn help_text_of(help_text: &Option<String>, description: &Option<String>) -> (s: String)
    ensures
        s@ == help_of(*help_text, *description),
{
    match help_text {
        Some(h) => str_to_string(h.as_str()),
        None => match description {
            Some(d) => str_to_string(d.as_str()),
            None => str_to_string("No help available"),
        },
    }
}

proof fn lemma_groups_hold_valid_items(pairs: Seq<(Option<Seq<char>>, usize)>, n: int)
    requires
        forall|i: int| 0 <= i < pairs.len() ==> 0 <= #[trigger] pairs[i].1 < n,
    ensures
        forall|k: int| 0 <= k < grouped(pairs).len() ==> (#[trigger] grouped(pairs)[k]).1.len() > 0
            && forall|j: int| 0 <= j < grouped(pairs)[k].1.len() ==> 0 <= #[trigger] grouped(pairs)[k].1[j] < n,
    decreases pairs.len(),
{
    if pairs.len() > 0 {
        lemma_groups_hold_valid_items(pairs.drop_last(), n);
        let g = grouped(pairs.drop_last());
        let key = pairs.last().0;
        let item = pairs.last().1;
        let r = file_item(g, key, item);
        match find_key_from(g, key, 0) {
            Some(i) => {
                lemma_find_key_in_range(g, key, 0);
                assert forall|k: int| 0 <= k < r.len() implies (#[trigger] r[k]).1.len() > 0
                    && forall|j: int| 0 <= j < r[k].1.len() ==> 0 <= #[trigger] r[k].1[j] < n by {
                    if k == i {
                        assert forall|j: int| 0 <= j < r[k].1.len() implies 0 <= #[trigger] r[k].1[j] < n by {
                            if j < g[i].1.len() {
                                assert(r[k].1[j] == g[i].1[j]);
                            }
                        }
                    }
                }
            },
            None => {},
        }
    }
}

proof fn lemma_find_key_in_range(g: Groups, key: Option<Seq<char>>, i: int)
    ensures
        find_key_from(g, key, i) matches Some(p) ==> i <= p < g.len() && g[p].0 == key,
    decreases g.len() - i,
{
    if 0 <= i < g.len() && g[i].0 != key {
        lemma_find_key_in_range(g, key, i + 1);
    }
}

impl Help {
    /// The help menu for one command and its subcommands; `command_name` is
    /// matched against names and context-menu names without ASCII case.
    pub fn single_command(&self, commands: &Vec<CommandInfo>, command_name: &str) -> (r: HelpReply)
        ensures
            single_command_reply(*self, commands@, command_name@, r),
    {
        let wanted = chars_of(command_name);
        let mut not_found = String::new();
        push_str(&mut not_found, "<:mminfo:1279517292455264359> Command not found: `");
        push_str(&mut not_found, command_name);
        push_str(&mut not_found, "`");
        let mut i: usize = 0;
        while i < commands.len()
            invariant
                i <= commands@.len(),
                wanted@ == command_name@,
                find_command_from(commands@, command_name@, 0) == find_command_from(commands@, command_name@, i as int),
            ensures
                i <= commands@.len(),
                find_command_from(commands@, command_name@, 0) == find_command_from(commands@, command_name@, i as int),
                i < commands@.len() ==> answers_to(commands@[i as int], command_name@),
            decreases commands.len() - i,
        {
            if command_answers(&commands[i], &wanted) {
                break;
            }
            i += 1;
        }
        if i == commands.len() {
            return HelpReply::NotFound(not_found);
        }
        let c = &commands[i];
        assert(find_command_from(commands@, command_name@, 0) == Some(i as int));
        if category_is(&c.category, &self.secret_category) || (!self.elevated_permissions && c.requires_permissions)
            || (c.context_menu.is_some() && !self.show_context_menu_commands) {
            return HelpReply::NotFound(not_found);
        }
        let mut heading = String::new();
        if c.context_menu.is_some() {
            match &c.context_menu_name {
                Some(n) => push_str(&mut heading, n.as_str()),
                None => push_str(&mut heading, c.name.as_str()),
            }
        } else {
            push_str(&mut heading, "/");
            push_str(&mut heading, c.name.as_str());
        }
        let ghost (prefix, shown) = shown_name(*c);
        assert(heading@ =~= prefix + shown);
        let help = help_text_of(&c.help_text, &c.description);
        let subs = &c.subcommands;
        let mut keys: Vec<Option<String>> = Vec::new();
        let mut items: Vec<usize> = Vec::new();
        let mut j: usize = 0;
        while j < subs.len()
            invariant
                j <= subs@.len(),
                keys@.len() == j && items@.len() == j,
                forall|k: int| 0 <= k < j ==> opt_view(#[trigger] keys@[k]) == Some(subs@[k].name@) && items@[k] == k,
            decreases subs.len() - j,
        {
            keys.push(Some(str_to_string(subs[j].name.as_str())));
            items.push(j);
            j += 1;
        }
        let groups = group_by_key(&keys, &items);
        let ghost pairs = key_item_pairs(keys@, items@);
        assert(pairs =~= Seq::new(subs@.len(), |k: int| (Some(subs@[k].name@), k as usize)));
        proof {
            lemma_groups_hold_valid_items(pairs, subs@.len() as int);
        }
        let mut fields: Vec<(String, String)> = Vec::new();
        let mut k: usize = 0;
        while k < groups.len()
            invariant
                k <= groups@.len(),
                groups_view(groups@) == subcommand_groups(subs@),
                heading@ == prefix + shown,
                fields@.len() == k,
                forall|q: int| 0 <= q < subcommand_groups(subs@).len() ==> (#[trigger] subcommand_groups(subs@)[q]).1.len() > 0
                    && forall|j: int| 0 <= j < subcommand_groups(subs@)[q].1.len() ==> 0 <= #[trigger] subcommand_groups(subs@)[q].1[j] < subs@.len(),
                forall|q: int| 0 <= q < k ==> {
                    let g = #[trigger] subcommand_groups(subs@)[q];
                    let sub = subs@[g.1.last() as int];
                    &&& fields@[q].0@ == prefix + shown + " "@ + sub.name@
                    &&& fields@[q].1@ == "```"@ + help_of(sub.help_text, sub.description) + "```"@
                },
            decreases groups.len() - k,
        {
            let members = &groups[k].1;
            assert(members@ == subcommand_groups(subs@)[k as int].1);
            let last = members[members.len() - 1];
            let sub = &subs[last];
            let mut name = String::new();
            push_str(&mut name, heading.as_str());
            push_str(&mut name, " ");
            push_str(&mut name, sub.name.as_str());
            let mut text = String::new();
            push_str(&mut text, "```");
            let sh = help_text_of(&sub.help_text, &sub.description);
            push_str(&mut text, sh.as_str());
            push_str(&mut text, "```");
            fields.push((name, text));
            k += 1;
        }
        let mut description = String::new();
        push_str(&mut description, help.as_str());
        if subs.len() > 0 {
            push_str(&mut description, "\n\nSubcommands:");
        } else {
            assert(description@ =~= help@);
        }
        HelpReply::Found(HelpEmbed { title: Some(heading), description: Some(description), fields, footer: None })
    }
}

} // verus!

verus! {

/// Whether a command is listed under its category in the full help menu.
pub open spec fn listed(h: Help, c: CommandInfo, in_guild: bool) -> bool {
    &&& !(!h.elevated_permissions && c.requires_permissions)
    &&& c.context_menu is None
    &&& !is_secret(c.category, h.secret_category@)
    &&& !(!in_guild && c.guild_only)
}

/// Whether a context-menu command is listed in the context-menu section.
pub open spec fn context_listed(h: Help, c: CommandInfo, in_guild: bool) -> bool {
    &&& c.context_menu is Some
    &&& !c.hide_in_help
    &&& !(!h.elevated_permissions && c.requires_permissions)
    &&& !(!in_guild && c.guild_only)
}

/// The category and position of each of the first `n` commands that `keep` marks.
pub open spec fn kept_by_category(cs: Seq<CommandInfo>, keep: Seq<bool>, n: int) -> Seq<(Option<Seq<char>>, usize)>
    decreases n,
{
    if n <= 0 {
        Seq::empty()
    } else if keep[n - 1] {
        kept_by_category(cs, keep, n - 1).push((opt_view(cs[n - 1].category), (n - 1) as usize))
    } else {
        kept_by_category(cs, keep, n - 1)
    }
}

/// The categories of the listed commands, in order of first appearance.
pub open spec fn listed_groups(h: Help, cs: Seq<CommandInfo>, in_guild: bool) -> Groups {
    grouped(kept_by_category(cs, Seq::new(cs.len(), |i: int| listed(h, cs[i], in_guild)), cs.len() as int))
}

/// The categories of the listed context-menu commands, in order of first appearance.
pub open spec fn context_groups(h: Help, cs: Seq<CommandInfo>, in_guild: bool) -> Groups {
    grouped(kept_by_category(cs, Seq::new(cs.len(), |i: int| context_listed(h, cs[i], in_guild)), cs.len() as int))
}

/// `n` spaces.
pub open spec fn spaces(n: nat) -> Seq<char> {
    Seq::new(n, |_i: int| ' ')
}

/// The spaces after a command's name: up to a width of twelve with the slash,
/// and at least one.
pub open spec fn name_padding(name_len: nat) -> nat {
    (if 1 + name_len <= 12 { (12 - (1 + name_len)) as nat } else { 0nat }) + 1
}

/// A description, or nothing.
pub open spec fn description_or_empty(d: Option<String>) -> Seq<char> {
    match d {
        Some(s) => s@,
        None => Seq::empty(),
    }
}

/// The line of a command in its category.
pub open spec fn command_line(c: CommandInfo) -> Seq<char> {
    "/"@ + c.name@ + spaces(name_padding(c.name@.len())) + description_or_empty(c.description) + "\n"@
}

/// Whether a listed command gets its line.
pub open spec fn shows_line(c: CommandInfo, in_guild: bool) -> bool {
    !c.hide_in_help && !(!in_guild && c.guild_only)
}

/// The lines of the given commands of one category.
pub open spec fn category_lines(cs: Seq<CommandInfo>, in_guild: bool, members: Seq<usize>) -> Seq<char>
    decreases members.len(),
{
    if members.len() == 0 {
        Seq::empty()
    } else {
        let c = cs[members.last() as int];
        category_lines(cs, in_guild, members.drop_last()) + if shows_line(c, in_guild) {
            command_line(c)
        } else {
            Seq::<char>::empty()
        }
    }
}

/// The name of a category's field.
pub open spec fn category_label(k: Option<Seq<char>>) -> Seq<char> {
    match k {
        Some(c) => c,
        None => "Other"@,
    }
}

/// The line of a context-menu command; none for a kind that is not listed.
pub open spec fn context_line(c: CommandInfo) -> Seq<char> {
    let name = match c.context_menu_name {
        Some(n) => n@,
        None => c.name@,
    };
    match c.context_menu {
        Some(ContextMenuKind::User) => name + " (on user)\n>> "@ + description_or_empty(c.description) + "\n"@,
        Some(ContextMenuKind::Message) => name + " (on message)\n>> "@ + description_or_empty(c.description) + "\n"@,
        _ => Seq::empty(),
    }
}

/// The lines of the given context-menu commands.
pub open spec fn context_member_lines(cs: Seq<CommandInfo>, members: Seq<usize>) -> Seq<char>
    decreases members.len(),
{
    if members.len() == 0 {
        Seq::empty()
    } else {
        context_member_lines(cs, members.drop_last()) + context_line(cs[members.last() as int])
    }
}

/// The lines of the first `n` groups of context-menu commands.
pub open spec fn context_lines(cs: Seq<CommandInfo>, groups: Groups, n: int) -> Seq<char>
    decreases n,
{
    if n <= 0 {
        Seq::empty()
    } else {
        context_lines(cs, groups, n - 1) + context_member_lines(cs, groups[n - 1].1)
    }
}

/// The help menu of every command: a field per category in order of first
/// appearance, then, where context-menu commands are shown and any is
/// listed, their section; the footer text.
pub open spec fn all_commands_embed(h: Help, cs: Seq<CommandInfo>, in_guild: bool, e: HelpEmbed) -> bool {
    let groups = listed_groups(h, cs, in_guild);
    let cg = context_groups(h, cs, in_guild);
    let ctx = context_lines(cs, cg, cg.len() as int);
    let with_context = h.show_context_menu_commands && ctx.len() > 0;
    &&& e.title is None
    &&& e.description is None
    &&& e.footer matches Some(f) && f@ == h.footer_text@
    &&& e.fields@.len() == groups.len() + if with_context { 1int } else { 0int }
    &&& forall|k: int| 0 <= k < groups.len() ==> {
        &&& (#[trigger] e.fields@[k]).0@ == category_label(groups[k].0)
        &&& e.fields@[k].1@ == "```"@ + category_lines(cs, in_guild, groups[k].1) + "```"@
    }
    &&& with_context ==> {
        &&& e.fields@[groups.len() as int].0@ == "Context Menu Commands"@
        &&& e.fields@[groups.len() as int].1@ == "```"@ + ctx + "```"@
    }
}

proof fn lemma_kept_below(cs: Seq<CommandInfo>, keep: Seq<bool>, n: int)
    requires
        0 <= n <= usize::MAX,
    ensures
        forall|i: int| 0 <= i < kept_by_category(cs, keep, n).len() ==> (#[trigger] kept_by_category(cs, keep, n)[i]).1 < n,
    decreases n,
{
    if n > 0 {
        lemma_kept_below(cs, keep, n - 1);
        let prev = kept_by_category(cs, keep, n - 1);
        let cur = kept_by_category(cs, keep, n);
        assert(((n - 1) as usize) as int == n - 1);
        assert forall|i: int| 0 <= i < cur.len() implies (#[trigger] cur[i]).1 < n by {
            if i < prev.len() {
                assert(cur[i] == prev[i]);
            }
        }
    }
}

/// The groups of the commands that `keep` marks, by category.
fn category_groups(cs: &Vec<CommandInfo>, keep: &Vec<bool>) -> (v: Vec<(Option<String>, Vec<usize>)>)
    requires
        keep@.len() == cs@.len(),
    ensures
        groups_view(v@) == grouped(kept_by_category(cs@, keep@, cs@.len() as int)),
        forall|k: int| 0 <= k < v@.len() ==> (#[trigger] v@[k]).1@.len() > 0
            && forall|j: int| 0 <= j < v@[k].1@.len() ==> #[trigger] v@[k].1@[j] < cs@.len(),
{
    let mut keys: Vec<Option<String>> = Vec::new();
    let mut items: Vec<usize> = Vec::new();
    let mut i: usize = 0;
    while i < cs.len()
        invariant
            i <= cs@.len() == keep@.len(),
            keys@.len() == items@.len(),
            key_item_pairs(keys@, items@) == kept_by_category(cs@, keep@, i as int),
        decreases cs.len() - i,
    {
        if keep[i] {
            keys.push(copy_key(&cs[i].category));
            items.push(i);
            assert(key_item_pairs(keys@, items@) =~= kept_by_category(cs@, keep@, i as int + 1));
        }
        i += 1;
    }
    let v = group_by_key(&keys, &items);
    proof {
        let pairs = kept_by_category(cs@, keep@, cs@.len() as int);
        lemma_kept_below(cs@, keep@, cs@.len() as int);
        lemma_groups_hold_valid_items(pairs, cs@.len() as int);
        assert forall|k: int| 0 <= k < v@.len() implies (#[trigger] v@[k]).1@.len() > 0
            && forall|j: int| 0 <= j < v@[k].1@.len() ==> #[trigger] v@[k].1@[j] < cs@.len() by {
            assert(v@[k].1@ == grouped(pairs)[k].1);
        }
    }
    v
}

fn command_line_of(c: &CommandInfo) -> (s: String)
    ensures
        s@ == command_line(*c),
{
    let mut s = String::new();
    push_str(&mut s, "/");
    push_str(&mut s, c.name.as_str());
    let n = chars_of(c.name.as_str()).len();
    let padding: usize = if n >= 11 { 1 } else { 12 - n };
    let ghost base = s@;
    let mut p: usize = 0;
    while p < padding
        invariant
            p <= padding,
            s@ == base + spaces(p as nat),
        decreases padding - p,
    {
        push_char(&mut s, ' ');
        assert(base + spaces((p + 1) as nat) =~= (base + spaces(p as nat)).push(' '));
        p += 1;
    }
    match &c.description {
        Some(d) => push_str(&mut s, d.as_str()),
        None => {},
    }
    push_str(&mut s, "\n");
    assert(s@ =~= command_line(*c));
    s
}

/// The text of one category's field.
fn category_text(cs: &Vec<CommandInfo>, in_guild: bool, members: &Vec<usize>) -> (s: String)
    requires
        forall|j: int| 0 <= j < members@.len() ==> #[trigger] members@[j] < cs@.len(),
    ensures
        s@ == "```"@ + category_lines(cs@, in_guild, members@) + "```"@,
{
    let mut text = String::new();
    push_str(&mut text, "```");
    let mut j: usize = 0;
    while j < members.len()
        invariant
            j <= members@.len(),
            forall|q: int| 0 <= q < members@.len() ==> #[trigger] members@[q] < cs@.len(),
            text@ == "```"@ + category_lines(cs@, in_guild, members@.take(j as int)),
        decreases members.len() - j,
    {
        let c = &cs[members[j]];
        proof {
            assert(members@.take(j as int + 1).drop_last() =~= members@.take(j as int));
        }
        if !c.hide_in_help && !(!in_guild && c.guild_only) {
            let line = command_line_of(c);
            push_str(&mut text, line.as_str());
        }
        j += 1;
    }
    assert(members@.take(members@.len() as int) =~= members@);
    push_str(&mut text, "```");
    text
}

fn context_line_of(c: &CommandInfo) -> (s: String)
    ensures
        s@ == context_line(*c),
{
    let mut s = String::new();
    let name = match &c.context_menu_name {
        Some(n) => n.as_str(),
        None => c.name.as_str(),
    };
    match c.context_menu {
        Some(ContextMenuKind::User) => {
            push_str(&mut s, name);
            push_str(&mut s, " (on user)\n>> ");
        },
        Some(ContextMenuKind::Message) => {
            push_str(&mut s, name);
            push_str(&mut s, " (on message)\n>> ");
        },
        _ => {
            assert(s@ =~= context_line(*c));
            return s;
        },
    }
    match &c.description {
        Some(d) => push_str(&mut s, d.as_str()),
        None => {},
    }
    push_str(&mut s, "\n");
    assert(s@ =~= context_line(*c));
    s
}

/// The lines of the context-menu commands, group after group.
fn context_text(cs: &Vec<CommandInfo>, groups: &Vec<(Option<String>, Vec<usize>)>) -> (s: String)
    requires
        forall|k: int| 0 <= k < groups@.len() ==> forall|j: int| 0 <= j < (#[trigger] groups@[k]).1@.len() ==> #[trigger] groups@[k].1@[j] < cs@.len(),
    ensures
        s@ == context_lines(cs@, groups_view(groups@), groups@.len() as int),
{
    let ghost gv = groups_view(groups@);
    let mut s = String::new();
    let mut q: usize = 0;
    while q < groups.len()
        invariant
            q <= groups@.len(),
            gv == groups_view(groups@),
            forall|k: int| 0 <= k < groups@.len() ==> forall|j: int| 0 <= j < (#[trigger] groups@[k]).1@.len() ==> #[trigger] groups@[k].1@[j] < cs@.len(),
            s@ == context_lines(cs@, gv, q as int),
        decreases groups.len() - q,
    {
        let members = &groups[q].1;
        assert(gv[q as int].1 == members@);
        let ghost before = s@;
        let mut j: usize = 0;
        while j < members.len()
            invariant
                j <= members@.len(),
                forall|i: int| 0 <= i < members@.len() ==> #[trigger] members@[i] < cs@.len(),
                s@ == before + context_member_lines(cs@, members@.take(j as int)),
            decreases members.len() - j,
        {
            proof {
                assert(members@.take(j as int + 1).drop_last() =~= members@.take(j as int));
            }
            let line = context_line_of(&cs[members[j]]);
            push_str(&mut s, line.as_str());
            j += 1;
        }
        assert(members@.take(members@.len() as int) =~= members@);
        q += 1;
    }
    s
}

impl Help {
    /// The help menu of every command that the member can use here, by
    /// category, with the context-menu commands in a section of their own.
    pub fn all_commands(&self, commands: &Vec<CommandInfo>, in_guild: bool) -> (e: HelpEmbed)
        ensures
            all_commands_embed(*self, commands@, in_guild, e),
    {
        let ghost cs = commands@;
        let mut keep: Vec<bool> = Vec::new();
        let mut context_keep: Vec<bool> = Vec::new();
        let mut i: usize = 0;
        while i < commands.len()
            invariant
                i <= cs.len(),
                cs == commands@,
                keep@.len() == i && context_keep@.len() == i,
                forall|k: int| 0 <= k < i ==> #[trigger] keep@[k] == listed(*self, cs[k], in_guild),
                forall|k: int| 0 <= k < i ==> #[trigger] context_keep@[k] == context_listed(*self, cs[k], in_guild),
            decreases commands.len() - i,
        {
            let c = &commands[i];
            let missing = !self.elevated_permissions && c.requires_permissions;
            let unusable = !in_guild && c.guild_only;
            keep.push(!missing && c.context_menu.is_none() && !category_is(&c.category, &self.secret_category) && !unusable);
            context_keep.push(c.context_menu.is_some() && !c.hide_in_help && !missing && !unusable);
            i += 1;
        }
        assert(keep@ =~= Seq::new(cs.len(), |k: int| listed(*self, cs[k], in_guild)));
        assert(context_keep@ =~= Seq::new(cs.len(), |k: int| context_listed(*self, cs[k], in_guild)));
        let groups = category_groups(commands, &keep);
        let ghost lg = listed_groups(*self, cs, in_guild);
        let mut fields: Vec<(String, String)> = Vec::new();
        let mut k: usize = 0;
        while k < groups.len()
            invariant
                k <= groups@.len(),
                cs == commands@,
                groups_view(groups@) == lg,
                lg == listed_groups(*self, cs, in_guild),
                forall|q: int| 0 <= q < groups@.len() ==> (#[trigger] groups@[q]).1@.len() > 0
                    && forall|j: int| 0 <= j < groups@[q].1@.len() ==> #[trigger] groups@[q].1@[j] < cs.len(),
                fields@.len() == k,
                forall|q: int| 0 <= q < k ==> {
                    &&& (#[trigger] fields@[q]).0@ == category_label(lg[q].0)
                    &&& fields@[q].1@ == "```"@ + category_lines(cs, in_guild, lg[q].1) + "```"@
                },
            decreases groups.len() - k,
        {
            let members = &groups[k].1;
            assert(lg[k as int].1 == members@);
            let text = category_text(commands, in_guild, members);
            let label = match &groups[k].0 {
                Some(c) => str_to_string(c.as_str()),
                None => str_to_string("Other"),
            };
            fields.push((label, text));
            k += 1;
        }
        if self.show_context_menu_commands {
            let context_groups = category_groups(commands, &context_keep);
            let lines = context_text(commands, &context_groups);
            if chars_of(lines.as_str()).len() > 0 {
                let mut content = String::new();
                push_str(&mut content, "```");
                push_str(&mut content, lines.as_str());
                push_str(&mut content, "```");
                fields.push((str_to_string("Context Menu Commands"), content));
            }
        }
        HelpEmbed { title: None, description: None, fields, footer: Some(str_to_string(self.footer_text.as_str())) }
    }
}

} // verus!

verus! {

/// Whether a command is offered when completing a partial name.
pub open spec fn offered(c: CommandInfo, in_guild: bool, is_staff: bool, partial: Seq<char>) -> bool {
    &&& (!c.requires_permissions || is_staff)
    &&& (c.category matches Some(cat) && cat@ != SECRET_CATEGORY@)
    &&& ((in_guild && c.guild_only) || (!in_guild && !c.guild_only))
    &&& c.context_menu is None
    &&& partial.is_prefix_of(c.name@)
}

/// The names of the first `n` commands that are offered, in order.
pub open spec fn offered_names(cs: Seq<CommandInfo>, in_guild: bool, is_staff: bool, partial: Seq<char>, n: int) -> Seq<Seq<char>>
    decreases n,
{
    if n <= 0 {
        Seq::empty()
    } else if offered(cs[n - 1], in_guild, is_staff, partial) {
        offered_names(cs, in_guild, is_staff, partial, n - 1).push(cs[n - 1].name@)
    } else {
        offered_names(cs, in_guild, is_staff, partial, n - 1)
    }
}

/// The most names offered at once.
pub const MAX_CHOICES: usize = 25usize;

/// At most the first `MAX_CHOICES` elements.
pub open spec fn first_choices(names: Seq<Seq<char>>) -> Seq<Seq<char>> {
    names.take(if names.len() < MAX_CHOICES { names.len() as int } else { MAX_CHOICES as int })
}

fn starts_with(s: &str, prefix: &Vec<char>) -> (b: bool)
    ensures
        b == prefix@.is_prefix_of(s@),
{
    let v = chars_of(s);
    if prefix.len() > v.len() {
        return false;
    }
    let mut i: usize = 0;
    while i < prefix.len()
        invariant
            i <= prefix@.len() <= v@.len(),
            v@ == s@,
            forall|k: int| 0 <= k < i ==> prefix@[k] == #[trigger] v@[k],
        decreases prefix.len() - i,
    {
        if prefix[i] != v[i] {
            assert(prefix@[i as int] != s@.subrange(0, prefix@.len() as int)[i as int]);
            return false;
        }
        i += 1;
    }
    assert(prefix@ =~= s@.subrange(0, prefix@.len() as int));
    true
}

proof fn lemma_offered_grows(cs: Seq<CommandInfo>, in_guild: bool, is_staff: bool, partial: Seq<char>, n: int)
    ensures
        offered_names(cs, in_guild, is_staff, partial, n).is_prefix_of(offered_names(cs, in_guild, is_staff, partial, n + 1)),
{
    let a = offered_names(cs, in_guild, is_staff, partial, n);
    let b = offered_names(cs, in_guild, is_staff, partial, n + 1);
    assert(a =~= b.subrange(0, a.len() as int));
}

/// The names offered for a partial command name: commands that the member may
/// use here, not secret and not context-menu commands, whose name starts with
/// `partial`, at most `MAX_CHOICES` of them.
pub fn autocomplete_command(commands: &Vec<CommandInfo>, in_guild: bool, is_staff: bool, partial: &str) -> (r: Vec<String>)
    ensures
        r@.map_values(|s: String| s@) == first_choices(offered_names(commands@, in_guild, is_staff, partial@, commands@.len() as int)),
{
    let prefix = chars_of(partial);
    let secret = str_to_string(SECRET_CATEGORY);
    let mut r: Vec<String> = Vec::new();
    let mut i: usize = 0;
    while i < commands.len()
        invariant
            i <= commands@.len(),
            prefix@ == partial@,
            secret@ == SECRET_CATEGORY@,
            r@.map_values(|s: String| s@) == first_choices(offered_names(commands@, in_guild, is_staff, partial@, i as int)),
        decreases commands.len() - i,
    {
        let c = &commands[i];
        let not_secret = match &c.category {
            Some(cat) => !(*cat == secret),
            None => false,
        };
        let usable = (in_guild && c.guild_only) || (!in_guild && !c.guild_only);
        let ok = (!c.requires_permissions || is_staff) && not_secret && usable && c.context_menu.is_none()
            && starts_with(c.name.as_str(), &prefix);
        let ghost before = offered_names(commands@, in_guild, is_staff, partial@, i as int);
        let ghost after = offered_names(commands@, in_guild, is_staff, partial@, i as int + 1);
        proof {
            lemma_offered_grows(commands@, in_guild, is_staff, partial@, i as int);
        }
        if ok {
            assert(after == before.push(c.name@));
            if r.len() < MAX_CHOICES {
                let ghost old_r = r@.map_values(|s: String| s@);
                assert(old_r.len() == r@.len());
                assert(before.len() == old_r.len());
                assert(old_r =~= before);
                let name = str_to_string(c.name.as_str());
                r.push(name);
                assert(r@.map_values(|s: String| s@) =~= old_r.push(c.name@));
                assert(first_choices(after) =~= after);
            } else {
                assert(first_choices(after) =~= first_choices(before));
            }
        } else {
            assert(after == before);
        }
        i += 1;
    }
    r
}

impl Help {
    /// The settings of a help menu.
    pub fn new(
        footer_text: &str,
        ephemeral: bool,
        show_context_menu_commands: bool,
        elevated_permissions: bool,
        secret_category: &str,
    ) -> (h: Help)
        ensures
            h.footer_text@ == footer_text@,
            h.ephemeral == ephemeral,
            h.show_context_menu_commands == show_context_menu_commands,
            h.elevated_permissions == elevated_permissions,
            h.secret_category@ == secret_category@,
    {
        Help {
            footer_text: str_to_string(footer_text),
            ephemeral,
            show_context_menu_commands,
            elevated_permissions,
            secret_category: str_to_string(secret_category),
        }
    }
}

/// The footer of the help menu.
pub const HELP_FOOTER: &'static str = "For more info about a command or its subcommands, use: /help command";

/// The help command's menu: private to the member, with context-menu
/// commands, every command shown to staff, the secret category left out.
pub fn help_settings(is_staff: bool) -> (h: Help)
    ensures
        h.footer_text@ == HELP_FOOTER@,
        h.ephemeral,
        h.show_context_menu_commands,
        h.elevated_permissions == is_staff,
        h.secret_category@ == SECRET_CATEGORY@,
{
    Help::new(HELP_FOOTER, true, true, is_staff, SECRET_CATEGORY)
}

} // verus!

//! Server configuration: identifiers of the guild's roles, channels, commands and
//! emoji, the vanity roles awarded for total time and for streaks, and the
//! mention strings Discord renders for them.
use vstd::prelude::*;
use crate::text::{nat_decimal, push_str, push_u64};

verus! {

/// The home guild.
pub const MEDITATION_MIND: u64 = 244917432383176705u64;
/// Name of the channel category whose channels are kept out of public features.
pub const SECRET_CATEGORY: &'static str = "Secret";
/// Colour of every embed the bot sends.
pub const EMBED_COLOR: u32 = 0xFDAC2Eu32;
/// Number of star reactions that puts a message on the star board.
pub const MIN_STARS: u64 = 4u64;

/// Marker for the bot's embed defaults (the embed colour is [`EMBED_COLOR`]).
pub struct BloomBotEmbed {}

/// How many entries a paginated list shows per page.
pub struct EntriesPerPage {
    pub default: usize,
    pub bookmarks: usize,
    pub glossary: usize,
}

/// The page sizes used by the bot's lists.
pub fn entries_per_page() -> (e: EntriesPerPage)
    ensures
        e.default == 10,
        e.bookmarks == 5,
        e.glossary == 15,
{
    EntriesPerPage { default: 10, bookmarks: 5, glossary: 15 }
}

/// A guild role, by identifier.
#[derive(Debug, Clone, Copy, PartialEq, Eq, Structural)]
pub struct Role(pub u64);

impl Role {
    /// The role's identifier.
    pub fn id(self) -> (id: u64)
        ensures
            id == self.0,
    {
        self.0
    }

    /// The mention Discord renders for the role: `<@&id>`.
    pub fn to_string(&self) -> (s: String)
        ensures
            s@ == "<@&"@ + nat_decimal(self.0 as nat) + ">"@,
    {
        let mut s = String::new();
        push_str(&mut s, "<@&");
        push_u64(&mut s, self.0);
        push_str(&mut s, ">");
        s
    }
}

/// The roles the bot refers to.
pub struct Roles {
    pub welcome_team: Role,
    pub meditation_challenger: Role,
    pub meditation_challenger_365: Role,
    pub patreon: Role,
    pub kofi: Role,
    pub staff: Role,
    pub community_sit_helper: Role,
    pub community_book_club_host: Role,
    pub no_pings: Role,
}

/// The identifiers of the guild's roles.
pub fn roles() -> (r: Roles)
    ensures
        r.welcome_team.0 == 828291690917265418u64,
        r.meditation_challenger.0 == 796821826369617970u64,
        r.meditation_challenger_365.0 == 516750476268666880u64,
        r.patreon.0 == 543900027928444935u64,
        r.kofi.0 == 1083219974509826048u64,
        r.staff.0 == 788760128010059786u64,
        r.community_sit_helper.0 == 1285275266549158050u64,
        r.community_book_club_host.0 == 1355086929229647990u64,
        r.no_pings.0 == 1128156466273058906u64,
{
    Roles {
        welcome_team: Role(828291690917265418u64),
        meditation_challenger: Role(796821826369617970u64),
        meditation_challenger_365: Role(516750476268666880u64),
        patreon: Role(543900027928444935u64),
        kofi: Role(1083219974509826048u64),
        staff: Role(788760128010059786u64),
        community_sit_helper: Role(1285275266549158050u64),
        community_book_club_host: Role(1355086929229647990u64),
        no_pings: Role(1128156466273058906u64),
    }
}

/// A guild channel, by identifier.
#[derive(Debug, Clone, Copy, PartialEq, Eq, Structural)]
pub struct Channel(pub u64);

impl Channel {
    /// The channel's identifier.
    pub fn id(self) -> (id: u64)
        ensures
            id == self.0,
    {
        self.0
    }

    /// Whether a channel identifier names this channel.
    pub fn is(self, channel_id: u64) -> (b: bool)
        ensures
            b == (channel_id == self.0),
    {
        channel_id == self.0
    }

    /// The mention Discord renders for the channel: `<#id>`.
    pub fn to_string(&self) -> (s: String)
        ensures
            s@ == "<#"@ + nat_decimal(self.0 as nat) + ">"@,
    {
        let mut s = String::new();
        push_str(&mut s, "<#");
        push_u64(&mut s, self.0);
        push_str(&mut s, ">");
        s
    }
}

/// The channels the bot refers to.
pub struct Channels {
    pub welcome: Channel,
    pub announcement: Channel,
    pub logs: Channel,
    pub bloomlogs: Channel,
    pub starchannel: Channel,
    pub reportchannel: Channel,
    pub donators: Channel,
    pub suggestion: Channel,
    pub tracking: Channel,
    pub private_thread_default: Channel,
    pub group_meditation: Channel,
    pub meditate_with_me_1: Channel,
    pub meditate_with_me_2: Channel,
    pub meditation_hall: Channel,
}

/// The identifiers of the guild's channels.
pub fn channels() -> (c: Channels)
    ensures
        c.welcome.0 == 493402917001494539u64,
        c.announcement.0 == 244917519477899264u64,
        c.logs.0 == 441207765357035541u64,
        c.bloomlogs.0 == 1161911290915209297u64,
        c.starchannel.0 == 856865368098078720u64,
        c.reportchannel.0 == 855894610001395743u64,
        c.donators.0 == 551895169532952578u64,
        c.suggestion.0 == 553676378621476887u64,
        c.tracking.0 == 440556997364940801u64,
        c.private_thread_default.0 == 501464482996944909u64,
        c.group_meditation.0 == 462964692856602624u64,
        c.meditate_with_me_1.0 == 1062108971558776872u64,
        c.meditate_with_me_2.0 == 1143607063226875984u64,
        c.meditation_hall.0 == 909856372378722324u64,
{
    Channels {
        welcome: Channel(493402917001494539u64),
        announcement: Channel(244917519477899264u64),
        logs: Channel(441207765357035541u64),
        bloomlogs: Channel(1161911290915209297u64),
        starchannel: Channel(856865368098078720u64),
        reportchannel: Channel(855894610001395743u64),
        donators: Channel(551895169532952578u64),
        suggestion: Channel(553676378621476887u64),
        tracking: Channel(440556997364940801u64),
        private_thread_default: Channel(501464482996944909u64),
        group_meditation: Channel(462964692856602624u64),
        meditate_with_me_1: Channel(1062108971558776872u64),
        meditate_with_me_2: Channel(1143607063226875984u64),
        meditation_hall: Channel(909856372378722324u64),
    }
}

/// A slash command, by name and identifier.
#[derive(Debug, Clone, Copy)]
pub struct Command<'a>(pub &'a str, pub u64);

impl<'a> Command<'a> {
    /// The clickable command mention: `</name:id>`.
    pub fn to_string(&self) -> (s: String)
        ensures
            s@ == "</"@ + self.0@ + ":"@ + nat_decimal(self.1 as nat) + ">"@,
    {
        let mut s = String::new();
        push_str(&mut s, "</");
        push_str(&mut s, self.0);
        push_str(&mut s, ":");
        push_u64(&mut s, self.1);
        push_str(&mut s, ">");
        s
    }
}

/// The commands that other messages link to.
pub struct Commands<'a> {
    pub glossary_info: Command<'a>,
    pub glossary_search: Command<'a>,
    pub glossary_suggest: Command<'a>,
}

/// The glossary commands.
pub fn commands() -> (c: Commands<'static>)
    ensures
        c.glossary_info.0@ == "glossary info"@,
        c.glossary_info.1 == 1135659962308243479u64,
        c.glossary_search.0@ == "glossary search"@,
        c.glossary_search.1 == 1135659962308243479u64,
        c.glossary_suggest.0@ == "glossary suggest"@,
        c.glossary_suggest.1 == 1135659962308243479u64,
{
    Commands {
        glossary_info: Command("glossary info", 1135659962308243479u64),
        glossary_search: Command("glossary search", 1135659962308243479u64),
        glossary_suggest: Command("glossary suggest", 1135659962308243479u64),
    }
}

/// The emotes used by the star board and the report feature.
pub struct Emotes<'a> {
    pub star: &'a str,
    pub report: u64,
}

/// The star emote and the custom report emote.
pub fn emotes() -> (e: Emotes<'static>)
    ensures
        e.star@ == "⭐"@,
        e.report == 852463521894629376u64,
{
    Emotes { star: "⭐", report: 852463521894629376u64 }
}

/// A custom emoji.
pub struct SimpleEmoji<'a> {
    pub animated: bool,
    pub id: u64,
    pub name: &'a str,
}

impl<'a> SimpleEmoji<'a> {
    /// The emoji markup: `<:name:id>`, or `<a:name:id>` when animated.
    pub fn to_string(&self) -> (s: String)
        ensures
            s@ == (if self.animated { "<a:"@ } else { "<:"@ }) + self.name@ + ":"@
                + nat_decimal(self.id as nat) + ">"@,
    {
        let mut s = String::new();
        if self.animated {
            push_str(&mut s, "<a:");
        } else {
            push_str(&mut s, "<:");
        }
        push_str(&mut s, self.name);
        push_str(&mut s, ":");
        push_u64(&mut s, self.id);
        push_str(&mut s, ">");
        s
    }
}

/// The custom emoji the bot uses.
pub struct BloomEmoji<'a> {
    pub pepeglow: SimpleEmoji<'a>,
    pub aww: SimpleEmoji<'a>,
    pub loveit: SimpleEmoji<'a>,
    pub mminfo: SimpleEmoji<'a>,
    pub mmx: SimpleEmoji<'a>,
    pub mmcheck: SimpleEmoji<'a>,
    pub derpman: SimpleEmoji<'a>,
}

/// The guild's custom emoji; none is animated.
pub fn emoji() -> (e: BloomEmoji<'static>)
    ensures
        !e.pepeglow.animated && e.pepeglow.id == 1279541855150673991u64
            && e.pepeglow.name@ == "pepeglow"@,
        !e.aww.animated && e.aww.id == 1279541172049678438u64 && e.aww.name@ == "aww"@,
        !e.loveit.animated && e.loveit.id == 1279540710747672689u64
            && e.loveit.name@ == "loveit"@,
        !e.mminfo.animated && e.mminfo.id == 1279517292455264359u64
            && e.mminfo.name@ == "mminfo"@,
        !e.mmx.animated && e.mmx.id == 1279517275749089290u64 && e.mmx.name@ == "mmx"@,
        !e.mmcheck.animated && e.mmcheck.id == 1279517233877483601u64
            && e.mmcheck.name@ == "mmcheck"@,
        !e.derpman.animated && e.derpman.id == 1309907402958700615u64
            && e.derpman.name@ == "derpman"@,
{
    BloomEmoji {
        pepeglow: SimpleEmoji { animated: false, id: 1279541855150673991u64, name: "pepeglow" },
        aww: SimpleEmoji { animated: false, id: 1279541172049678438u64, name: "aww" },
        loveit: SimpleEmoji { animated: false, id: 1279540710747672689u64, name: "loveit" },
        mminfo: SimpleEmoji { animated: false, id: 1279517292455264359u64, name: "mminfo" },
        mmx: SimpleEmoji { animated: false, id: 1279517275749089290u64, name: "mmx" },
        mmcheck: SimpleEmoji { animated: false, id: 1279517233877483601u64, name: "mmcheck" },
        derpman: SimpleEmoji { animated: false, id: 1309907402958700615u64, name: "derpman" },
    }
}

} // verus!

//! Rows that the database layer hands to the commands: statistics of a member
//! or a guild, leaderboard rows, term names.
use vstd::prelude::*;

verus! {

/// Sum of minutes and count of sessions over a period (absent when no rows).
#[derive(Debug, Clone, Copy, PartialEq, Eq, Structural)]
pub struct TimeframeStats {
    pub sum: Option<i64>,
    pub count: Option<i64>,
}

/// A member's current and longest streak.
#[derive(Debug, Clone, Copy, PartialEq, Eq, Structural)]
pub struct Streak {
    pub current: i32,
    pub longest: i32,
}

/// A member's totals, the totals of a period and their streak.
#[derive(Debug, Clone, Copy, PartialEq, Eq, Structural)]
pub struct UserStats {
    pub all_minutes: i64,
    pub all_count: u64,
    pub timeframe_stats: TimeframeStats,
    pub streak: Streak,
}

/// One row of a leaderboard with the member's display preferences.
pub struct LeaderboardUserStats {
    pub name: Option<String>,
    pub minutes: Option<i64>,
    pub sessions: Option<i64>,
    pub streak: Option<i32>,
    pub anonymous_tracking: Option<bool>,
    pub streaks_active: Option<bool>,
    pub streaks_private: Option<bool>,
}

/// A guild's totals and the totals of a period.
#[derive(Debug, Clone, Copy, PartialEq, Eq, Structural)]
pub struct GuildStats {
    pub all_minutes: i64,
    pub all_count: u64,
    pub timeframe_stats: TimeframeStats,
}

/// The periods statistics are shown for.
#[derive(Debug, Clone, Copy, PartialEq, Eq, Structural)]
pub enum Timeframe {
    Yearly,
    Monthly,
    Weekly,
    Daily,
}

/// The challenges a member can join.
#[derive(Debug, Clone, Copy, PartialEq, Eq, Structural)]
pub enum ChallengeTimeframe {
    Monthly,
    YearRound,
}

/// The name shown for a challenge.
pub open spec fn challenge_name(c: ChallengeTimeframe) -> Seq<char> {
    match c {
        ChallengeTimeframe::Monthly => "Monthly Challenge"@,
        ChallengeTimeframe::YearRound => "365-Day Challenge"@,
    }
}

impl ChallengeTimeframe {
    /// The name shown for the challenge in the command's choices.
    pub fn name(&self) -> (s: &'static str)
        ensures
            s@ == challenge_name(*self),
    {
        match self {
            ChallengeTimeframe::Monthly => "Monthly Challenge",
            ChallengeTimeframe::YearRound => "365-Day Challenge",
        }
    }
}

/// A term's name and its aliases.
pub struct TermNames {
    pub term_name: String,
    pub aliases: Option<Vec<String>>,
}

} // verus!

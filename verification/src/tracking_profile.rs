//! A member's tracking preferences: UTC offset, privacy of tracking, streaks
//! and stats, and whether streaks are reported at all.
use vstd::prelude::*;
use crate::time::{choice_from_offset, is_choice_offset, describes_offset, lemma_offset_of_choice_round_trip};

verus! {

/// Visibility of a kind of data.
#[derive(Debug, Clone, Copy, PartialEq, Eq, Structural)]
pub enum Privacy {
    Private,
    Public,
}

/// Whether a feature is on.
#[derive(Debug, Clone, Copy, PartialEq, Eq, Structural)]
pub enum Status {
    Enabled,
    Disabled,
}

impl Privacy {
    /// `true` for [`Privacy::Private`].
    pub fn is_private(self) -> (b: bool)
        ensures
            b == (self == Privacy::Private),
    {
        match self {
            Privacy::Private => true,
            Privacy::Public => false,
        }
    }

    /// Whether to keep a response private: the explicit choice when given,
    /// otherwise the default taken from the profile.
    pub fn resolve(privacy: Option<Privacy>, default: Privacy) -> (b: bool)
        ensures
            b == match privacy {
                Some(p) => p == Privacy::Private,
                None => default == Privacy::Private,
            },
    {
        match privacy {
            Some(p) => p.is_private(),
            None => default.is_private(),
        }
    }
}

/// Tracking preferences.
#[derive(Debug, Clone, Copy, PartialEq, Eq, Structural)]
pub struct Tracking {
    pub privacy: Privacy,
}

/// Streak preferences.
#[derive(Debug, Clone, Copy, PartialEq, Eq, Structural)]
pub struct Streak {
    pub status: Status,
    pub privacy: Privacy,
}

/// Stats preferences.
#[derive(Debug, Clone, Copy, PartialEq, Eq, Structural)]
pub struct Stats {
    pub privacy: Privacy,
}

/// A member's tracking profile in one guild.
#[derive(Debug, Clone, Copy, PartialEq, Eq, Structural)]
pub struct TrackingProfile {
    pub user_id: u64,
    pub guild_id: u64,
    pub utc_offset: i16,
    pub tracking: Tracking,
    pub streak: Streak,
    pub stats: Stats,
}

/// The values stored in the profile table's columns.
#[derive(Debug, Clone, Copy, PartialEq, Eq, Structural)]
pub struct ProfileColumns {
    pub utc_offset: i16,
    pub anonymous_tracking: bool,
    pub streaks_active: bool,
    pub streaks_private: bool,
    pub stats_private: bool,
}

/// The default profile: offset 0, everything public, streaks enabled.
pub open spec fn default_profile(user_id: u64, guild_id: u64) -> TrackingProfile {
    TrackingProfile {
        user_id,
        guild_id,
        utc_offset: 0,
        tracking: Tracking { privacy: Privacy::Public },
        streak: Streak { status: Status::Enabled, privacy: Privacy::Public },
        stats: Stats { privacy: Privacy::Public },
    }
}

impl Default for TrackingProfile {
    /// The default profile with no member and no guild (both 0).
    fn default() -> (p: TrackingProfile)
        ensures
            p == default_profile(0, 0),
    {
        TrackingProfile {
            user_id: 0,
            guild_id: 0,
            utc_offset: 0,
            tracking: Tracking { privacy: Privacy::Public },
            streak: Streak { status: Status::Enabled, privacy: Privacy::Public },
            stats: Stats { privacy: Privacy::Public },
        }
    }
}

impl TrackingProfile {

    /// The default profile of a member in a guild.
    pub fn new(guild_id: u64, user_id: u64) -> (p: TrackingProfile)
        ensures
            p == default_profile(user_id, guild_id),
    {
        TrackingProfile { user_id, guild_id, ..TrackingProfile::default() }
    }

    /// The profile with another member.
    pub fn user_id(self, user_id: u64) -> (p: TrackingProfile)
        ensures
            p == (TrackingProfile { user_id, ..self }),
    {
        TrackingProfile { user_id, ..self }
    }

    /// The profile with another guild.
    pub fn guild_id(self, guild_id: u64) -> (p: TrackingProfile)
        ensures
            p == (TrackingProfile { guild_id, ..self }),
    {
        TrackingProfile { guild_id, ..self }
    }

    /// The profile with a new UTC offset in minutes, when it is the offset of one
    /// of the offered choices; otherwise the profile unchanged.
    pub fn utc_offset(self, utc_offset: i16) -> (p: TrackingProfile)
        ensures
            is_choice_offset(utc_offset) ==> p == (TrackingProfile { utc_offset, ..self }),
            !is_choice_offset(utc_offset) ==> p == self,
    {
        let choice = choice_from_offset(utc_offset);
        proof {
            lemma_offset_of_choice_round_trip(utc_offset, 0, choice);
        }
        if choice.0.is_none() && choice.1.is_none() {
            self
        } else {
            TrackingProfile { utc_offset, ..self }
        }
    }

    /// The profile with another tracking privacy.
    pub fn tracking_privacy(self, privacy: Privacy) -> (p: TrackingProfile)
        ensures
            p == (TrackingProfile { tracking: Tracking { privacy }, ..self }),
    {
        TrackingProfile { tracking: Tracking { privacy }, ..self }
    }

    /// The profile with streak reporting switched on or off.
    pub fn streak_status(self, status: Status) -> (p: TrackingProfile)
        ensures
            p == (TrackingProfile { streak: Streak { status, privacy: self.streak.privacy }, ..self }),
    {
        TrackingProfile { streak: Streak { status, privacy: self.streak.privacy }, ..self }
    }

    /// The profile with another streak privacy.
    pub fn streak_privacy(self, privacy: Privacy) -> (p: TrackingProfile)
        ensures
            p == (TrackingProfile { streak: Streak { status: self.streak.status, privacy }, ..self }),
    {
        TrackingProfile { streak: Streak { status: self.streak.status, privacy }, ..self }
    }

    /// The profile with another stats privacy.
    pub fn stats_privacy(self, privacy: Privacy) -> (p: TrackingProfile)
        ensures
            p == (TrackingProfile { stats: Stats { privacy }, ..self }),
    {
        TrackingProfile { stats: Stats { privacy }, ..self }
    }

    /// The column values written when the profile is stored.
    pub fn columns(&self) -> (c: ProfileColumns)
        ensures
            c.utc_offset == self.utc_offset,
            c.anonymous_tracking == (self.tracking.privacy == Privacy::Private),
            c.streaks_active == (self.streak.status == Status::Enabled),
            c.streaks_private == (self.streak.privacy == Privacy::Private),
            c.stats_private == (self.stats.privacy == Privacy::Private),
    {
        ProfileColumns {
            utc_offset: self.utc_offset,
            anonymous_tracking: self.tracking.privacy.is_private(),
            streaks_active: match self.streak.status {
                Status::Enabled => true,
                Status::Disabled => false,
            },
            streaks_private: self.streak.privacy.is_private(),
            stats_private: self.stats.privacy.is_private(),
        }
    }
}

/// Setting one preference leaves the others as they were, and an offset set on
/// a profile always is one of the offered choices or 0.
pub proof fn lemma_builder_offsets_valid(p: TrackingProfile, offset: i16, q: TrackingProfile)
    requires
        p.utc_offset == 0 || is_choice_offset(p.utc_offset),
        is_choice_offset(offset) ==> q == (TrackingProfile { utc_offset: offset, ..p }),
        !is_choice_offset(offset) ==> q == p,
    ensures
        q.utc_offset == 0 || is_choice_offset(q.utc_offset),
        q.user_id == p.user_id && q.guild_id == p.guild_id && q.tracking == p.tracking
            && q.streak == p.streak && q.stats == p.stats,
{
}

/// The name a privacy setting is shown with.
pub open spec fn privacy_name(p: Privacy) -> Seq<char> {
    match p {
        Privacy::Private => "private"@,
        Privacy::Public => "public"@,
    }
}

impl Privacy {
    /// The name the setting is shown with.
    pub fn name(self) -> (s: &'static str)
        ensures
            s@ == privacy_name(self),
    {
        match self {
            Privacy::Private => "private",
            Privacy::Public => "public",
        }
    }
}

/// What a change of settings leads to.
pub enum SettingsChange {
    /// The settings already are as asked; nothing is stored.
    Unchanged,
    /// The profile is stored: added when the member had none (`is_new`),
    /// updated otherwise.
    Store { profile: TrackingProfile, is_new: bool },
}

/// The profile a change starts from: the stored one, or the default one of
/// the member in the guild.
pub open spec fn base_profile(existing: Option<TrackingProfile>, guild_id: u64, user_id: u64) -> TrackingProfile {
    match existing {
        Some(p) => p,
        None => default_profile(user_id, guild_id),
    }
}

fn base_of(existing: Option<TrackingProfile>, guild_id: u64, user_id: u64) -> (p: TrackingProfile)
    ensures
        p == base_profile(existing, guild_id, user_id),
{
    match existing {
        Some(p) => p,
        None => TrackingProfile::new(guild_id, user_id),
    }
}

/// Setting anonymous tracking on (`anonymous`) or off: unchanged when a stored
/// profile already has that setting.
pub fn plan_tracking_change(existing: Option<TrackingProfile>, guild_id: u64, user_id: u64, anonymous: bool) -> (c: SettingsChange)
    ensures
        ({
            let privacy = if anonymous { Privacy::Private } else { Privacy::Public };
            match existing {
                Some(p) if p.tracking.privacy == privacy => c is Unchanged,
                _ => c == (SettingsChange::Store {
                    profile: TrackingProfile { tracking: Tracking { privacy }, ..base_profile(existing, guild_id, user_id) },
                    is_new: existing is None,
                }),
            }
        }),
{
    let privacy = if anonymous { Privacy::Private } else { Privacy::Public };
    let is_new = existing.is_none();
    match existing {
        Some(p) => if p.tracking.privacy == privacy {
            return SettingsChange::Unchanged;
        },
        None => {},
    }
    let base = base_of(existing, guild_id, user_id);
    SettingsChange::Store { profile: base.tracking_privacy(privacy), is_new }
}

/// Setting stats privacy: unchanged when a stored profile already has it.
pub fn plan_stats_change(existing: Option<TrackingProfile>, guild_id: u64, user_id: u64, privacy: Privacy) -> (c: SettingsChange)
    ensures
        match existing {
            Some(p) if p.stats.privacy == privacy => c is Unchanged,
            _ => c == (SettingsChange::Store {
                profile: TrackingProfile { stats: Stats { privacy }, ..base_profile(existing, guild_id, user_id) },
                is_new: existing is None,
            }),
        },
{
    let is_new = existing.is_none();
    match existing {
        Some(p) => if p.stats.privacy == privacy {
            return SettingsChange::Unchanged;
        },
        None => {},
    }
    let base = base_of(existing, guild_id, user_id);
    SettingsChange::Store { profile: base.stats_privacy(privacy), is_new }
}

/// Setting the UTC offset (0 or one of the offered offsets): unchanged when a
/// stored profile already has it.
pub fn plan_offset_change(existing: Option<TrackingProfile>, guild_id: u64, user_id: u64, utc_offset: i16) -> (c: SettingsChange)
    requires
        utc_offset == 0 || is_choice_offset(utc_offset),
    ensures
        match existing {
            Some(p) if p.utc_offset == utc_offset => c is Unchanged,
            _ => c == (SettingsChange::Store {
                profile: TrackingProfile { utc_offset, ..base_profile(existing, guild_id, user_id) },
                is_new: existing is None,
            }),
        },
{
    let is_new = existing.is_none();
    match existing {
        Some(p) => if p.utc_offset == utc_offset {
            return SettingsChange::Unchanged;
        },
        None => {},
    }
    let base = base_of(existing, guild_id, user_id);
    let profile = if utc_offset == 0 {
        TrackingProfile { utc_offset: 0, ..base }
    } else {
        base.utc_offset(utc_offset)
    };
    SettingsChange::Store { profile, is_new }
}

/// A change of streak settings and what it means for the member's streak role.
pub struct StreakChange {
    pub change: SettingsChange,
    /// Reporting was turned off (or a new profile starts with it off): the
    /// member's streak roles are removed.
    pub remove_streak_roles: bool,
    /// Reporting was turned back on: the earned streak role is given again.
    pub restore_streak_role: bool,
}

/// Setting streak reporting and privacy; what is not given keeps the stored
/// value (the default for a new profile). Unchanged when a stored profile
/// already has both.
pub fn plan_streak_change(
    existing: Option<TrackingProfile>,
    guild_id: u64,
    user_id: u64,
    privacy: Option<Privacy>,
    reporting: Option<Status>,
) -> (c: StreakChange)
    ensures
        ({
            let base = base_profile(existing, guild_id, user_id);
            let status = match reporting { Some(s) => s, None => base.streak.status };
            let priv_ = match privacy { Some(p) => p, None => base.streak.privacy };
            match existing {
                Some(p) => if status == p.streak.status && priv_ == p.streak.privacy {
                    c.change is Unchanged && !c.remove_streak_roles && !c.restore_streak_role
                } else {
                    &&& c.change == (SettingsChange::Store {
                        profile: TrackingProfile { streak: Streak { status, privacy: priv_ }, ..p },
                        is_new: false,
                    })
                    &&& c.remove_streak_roles == (p.streak.status == Status::Enabled && status == Status::Disabled)
                    &&& c.restore_streak_role == (p.streak.status == Status::Disabled && status == Status::Enabled)
                },
                None => {
                    &&& c.change == (SettingsChange::Store {
                        profile: TrackingProfile { streak: Streak { status, privacy: priv_ }, ..base },
                        is_new: true,
                    })
                    &&& c.remove_streak_roles == (status == Status::Disabled)
                    &&& !c.restore_streak_role
                },
            }
        }),
{
    let base = base_of(existing, guild_id, user_id);
    let status = match reporting {
        Some(s) => s,
        None => base.streak.status,
    };
    let priv_ = match privacy {
        Some(p) => p,
        None => base.streak.privacy,
    };
    match existing {
        Some(p) => {
            if status == p.streak.status && priv_ == p.streak.privacy {
                return StreakChange { change: SettingsChange::Unchanged, remove_streak_roles: false, restore_streak_role: false };
            }
            let remove = p.streak.status == Status::Enabled && status == Status::Disabled;
            let restore = p.streak.status == Status::Disabled && status == Status::Enabled;
            StreakChange {
                change: SettingsChange::Store { profile: p.streak_status(status).streak_privacy(priv_), is_new: false },
                remove_streak_roles: remove,
                restore_streak_role: restore,
            }
        },
        None => StreakChange {
            change: SettingsChange::Store { profile: base.streak_status(status).streak_privacy(priv_), is_new: true },
            remove_streak_roles: status == Status::Disabled,
            restore_streak_role: false,
        },
    }
}

} // verus!

//! Vanity roles: one ladder awarded for total minutes meditated, one for the
//! length of the current streak.
use vstd::prelude::*;

verus! {

/// Roles awarded for the all-time total of minutes meditated, from lowest to highest.
#[derive(Debug, Clone, Copy, PartialEq, Eq, Structural)]
pub enum TimeSumRoles {
    One,
    Two,
    Three,
    Four,
    Five,
    Six,
    Seven,
    Eight,
    Nine,
    Ten,
    Eleven,
    Twelve,
    Thirteen,
    Fourteen,
    Fifteen,
}

/// Roles awarded for the current streak length in days, from lowest to highest.
#[derive(Debug, Clone, Copy, PartialEq, Eq, Structural)]
pub enum StreakRoles {
    Egg,
    HatchingChick,
    BabyChick,
    Chicken,
    Dove,
    Owl,
    Eagle,
    Dragon,
    Alien,
    SpaceInvader,
}

/// Position of a time role on its ladder (1 for the lowest).
pub open spec fn time_rank(r: TimeSumRoles) -> nat {
    match r {
        TimeSumRoles::One => 1,
        TimeSumRoles::Two => 2,
        TimeSumRoles::Three => 3,
        TimeSumRoles::Four => 4,
        TimeSumRoles::Five => 5,
        TimeSumRoles::Six => 6,
        TimeSumRoles::Seven => 7,
        TimeSumRoles::Eight => 8,
        TimeSumRoles::Nine => 9,
        TimeSumRoles::Ten => 10,
        TimeSumRoles::Eleven => 11,
        TimeSumRoles::Twelve => 12,
        TimeSumRoles::Thirteen => 13,
        TimeSumRoles::Fourteen => 14,
        TimeSumRoles::Fifteen => 15,
    }
}

/// Rank of an optional time role, 0 when there is none.
pub open spec fn time_rank_opt(r: Option<TimeSumRoles>) -> nat {
    match r {
        Some(r) => time_rank(r),
        None => 0,
    }
}

/// The time role earned by a total of `sum` minutes.
pub open spec fn time_role_for(sum: int) -> Option<TimeSumRoles> {
    if sum < 50 {
        None
    } else if sum < 100 {
        Some(TimeSumRoles::One)
    } else if sum < 150 {
        Some(TimeSumRoles::Two)
    } else if sum < 250 {
        Some(TimeSumRoles::Three)
    } else if sum < 500 {
        Some(TimeSumRoles::Four)
    } else if sum < 1000 {
        Some(TimeSumRoles::Five)
    } else if sum < 2000 {
        Some(TimeSumRoles::Six)
    } else if sum < 5000 {
        Some(TimeSumRoles::Seven)
    } else if sum < 10000 {
        Some(TimeSumRoles::Eight)
    } else if sum < 20000 {
        Some(TimeSumRoles::Nine)
    } else if sum < 50000 {
        Some(TimeSumRoles::Ten)
    } else if sum < 100000 {
        Some(TimeSumRoles::Eleven)
    } else if sum < 120000 {
        Some(TimeSumRoles::Twelve)
    } else if sum < 150000 {
        Some(TimeSumRoles::Thirteen)
    } else if sum < 200000 {
        Some(TimeSumRoles::Fourteen)
    } else {
        Some(TimeSumRoles::Fifteen)
    }
}

/// The guild role identifier of a time role.
pub open spec fn time_role_id(r: TimeSumRoles) -> u64 {
    match r {
        TimeSumRoles::One => 504641899890475018u64,
        TimeSumRoles::Two => 504641945596067851u64,
        TimeSumRoles::Three => 504642088760115241u64,
        TimeSumRoles::Four => 504641974486302751u64,
        TimeSumRoles::Five => 504642451898630164u64,
        TimeSumRoles::Six => 504642479459532810u64,
        TimeSumRoles::Seven => 504642975519866881u64,
        TimeSumRoles::Eight => 504643005479649280u64,
        TimeSumRoles::Nine => 504643037515874317u64,
        TimeSumRoles::Ten => 504645771464015893u64,
        TimeSumRoles::Eleven => 504645799821574144u64,
        TimeSumRoles::Twelve => 504645823888621568u64,
        TimeSumRoles::Thirteen => 1224667049175941120u64,
        TimeSumRoles::Fourteen => 1224671462657359972u64,
        TimeSumRoles::Fifteen => 1224678890161573969u64,
    }
}

/// Whether a role identifier is one of the time roles.
pub open spec fn is_time_role_id(id: u64) -> bool {
    exists|r: TimeSumRoles| time_role_id(r) == id
}

/// The icon shown for a time role where a mention cannot be rendered.
pub open spec fn time_role_icon(r: TimeSumRoles) -> Seq<char> {
    match r {
        TimeSumRoles::One => "⭐"@,
        TimeSumRoles::Two => "⭐⭐"@,
        TimeSumRoles::Three => "⭐⭐⭐"@,
        TimeSumRoles::Four => "🌟"@,
        TimeSumRoles::Five => "🌟🌟"@,
        TimeSumRoles::Six => "🌟🌟🌟"@,
        TimeSumRoles::Seven => "✨"@,
        TimeSumRoles::Eight => "✨✨"@,
        TimeSumRoles::Nine => "✨✨✨"@,
        TimeSumRoles::Ten => "💫"@,
        TimeSumRoles::Eleven => "💫💫"@,
        TimeSumRoles::Twelve => "💫💫💫"@,
        TimeSumRoles::Thirteen => "🔥"@,
        TimeSumRoles::Fourteen => "🔥🔥"@,
        TimeSumRoles::Fifteen => "🔥🔥🔥"@,
    }
}

impl TimeSumRoles {
    /// The guild role identifier of this role.
    pub fn to_role_id(&self) -> (id: u64)
        ensures
            id == time_role_id(*self),
    {
        match self {
            TimeSumRoles::One => 504641899890475018u64,
            TimeSumRoles::Two => 504641945596067851u64,
            TimeSumRoles::Three => 504642088760115241u64,
            TimeSumRoles::Four => 504641974486302751u64,
            TimeSumRoles::Five => 504642451898630164u64,
            TimeSumRoles::Six => 504642479459532810u64,
            TimeSumRoles::Seven => 504642975519866881u64,
            TimeSumRoles::Eight => 504643005479649280u64,
            TimeSumRoles::Nine => 504643037515874317u64,
            TimeSumRoles::Ten => 504645771464015893u64,
            TimeSumRoles::Eleven => 504645799821574144u64,
            TimeSumRoles::Twelve => 504645823888621568u64,
            TimeSumRoles::Thirteen => 1224667049175941120u64,
            TimeSumRoles::Fourteen => 1224671462657359972u64,
            TimeSumRoles::Fifteen => 1224678890161573969u64,
        }
    }

    /// The time role with the given identifier, if any.
    pub fn from_role_id(id: u64) -> (r: Option<TimeSumRoles>)
        ensures
            r matches Some(role) ==> time_role_id(role) == id,
            r is None ==> !is_time_role_id(id),
    {
        if id == 504641899890475018u64 {
            Some(TimeSumRoles::One)
        } else if id == 504641945596067851u64 {
            Some(TimeSumRoles::Two)
        } else if id == 504642088760115241u64 {
            Some(TimeSumRoles::Three)
        } else if id == 504641974486302751u64 {
            Some(TimeSumRoles::Four)
        } else if id == 504642451898630164u64 {
            Some(TimeSumRoles::Five)
        } else if id == 504642479459532810u64 {
            Some(TimeSumRoles::Six)
        } else if id == 504642975519866881u64 {
            Some(TimeSumRoles::Seven)
        } else if id == 504643005479649280u64 {
            Some(TimeSumRoles::Eight)
        } else if id == 504643037515874317u64 {
            Some(TimeSumRoles::Nine)
        } else if id == 504645771464015893u64 {
            Some(TimeSumRoles::Ten)
        } else if id == 504645799821574144u64 {
            Some(TimeSumRoles::Eleven)
        } else if id == 504645823888621568u64 {
            Some(TimeSumRoles::Twelve)
        } else if id == 1224667049175941120u64 {
            Some(TimeSumRoles::Thirteen)
        } else if id == 1224671462657359972u64 {
            Some(TimeSumRoles::Fourteen)
        } else if id == 1224678890161573969u64 {
            Some(TimeSumRoles::Fifteen)
        } else {
            assert forall|r: TimeSumRoles| time_role_id(r) != id by {
                match r {
                    _ => {},
                }
            }
            None
        }
    }

    /// The icon for this role.
    pub fn to_role_icon<'a>(&self) -> (icon: &'a str)
        ensures
            icon@ == time_role_icon(*self),
    {
        match self {
            TimeSumRoles::One => "⭐",
            TimeSumRoles::Two => "⭐⭐",
            TimeSumRoles::Three => "⭐⭐⭐",
            TimeSumRoles::Four => "🌟",
            TimeSumRoles::Five => "🌟🌟",
            TimeSumRoles::Six => "🌟🌟🌟",
            TimeSumRoles::Seven => "✨",
            TimeSumRoles::Eight => "✨✨",
            TimeSumRoles::Nine => "✨✨✨",
            TimeSumRoles::Ten => "💫",
            TimeSumRoles::Eleven => "💫💫",
            TimeSumRoles::Twelve => "💫💫💫",
            TimeSumRoles::Thirteen => "🔥",
            TimeSumRoles::Fourteen => "🔥🔥",
            TimeSumRoles::Fifteen => "🔥🔥🔥",
        }
    }

    /// The member's role identifiers that are time roles, in their original order.
    pub fn current(member_roles: &Vec<u64>) -> (res: Vec<u64>)
        ensures
            res@ == member_roles@.filter(|id: u64| is_time_role_id(id)),
    {
        let ghost pred = |id: u64| is_time_role_id(id);
        let mut res: Vec<u64> = Vec::new();
        let mut i: usize = 0;
        while i < member_roles.len()
            invariant
                i <= member_roles.len(),
                pred == (|id: u64| is_time_role_id(id)),
                res@ == member_roles@.take(i as int).filter(pred),
            decreases member_roles.len() - i,
        {
            let id = member_roles[i];
            proof {
                member_roles@.take(i as int).lemma_filter_push(id, pred);
                assert(member_roles@.take(i as int + 1) =~= member_roles@.take(i as int).push(id));
            }
            match TimeSumRoles::from_role_id(id) {
                Some(role) => {
                    let rid = role.to_role_id();
                    assert(pred(id)) by {
                        assert(time_role_id(role) == id);
                    }
                    res.push(rid);
                },
                None => {
                    assert(!pred(id));
                },
            }
            i += 1;
        }
        assert(member_roles@.take(member_roles.len() as int) =~= member_roles@);
        res
    }

    /// The time role earned by a total of `sum` minutes, if any.
    pub fn from_sum(sum: i64) -> (r: Option<TimeSumRoles>)
        ensures
            r == time_role_for(sum as int),
    {
        if sum < 50 {
            None
        } else if sum < 100 {
            Some(TimeSumRoles::One)
        } else if sum < 150 {
            Some(TimeSumRoles::Two)
        } else if sum < 250 {
            Some(TimeSumRoles::Three)
        } else if sum < 500 {
            Some(TimeSumRoles::Four)
        } else if sum < 1000 {
            Some(TimeSumRoles::Five)
        } else if sum < 2000 {
            Some(TimeSumRoles::Six)
        } else if sum < 5000 {
            Some(TimeSumRoles::Seven)
        } else if sum < 10000 {
            Some(TimeSumRoles::Eight)
        } else if sum < 20000 {
            Some(TimeSumRoles::Nine)
        } else if sum < 50000 {
            Some(TimeSumRoles::Ten)
        } else if sum < 100000 {
            Some(TimeSumRoles::Eleven)
        } else if sum < 120000 {
            Some(TimeSumRoles::Twelve)
        } else if sum < 150000 {
            Some(TimeSumRoles::Thirteen)
        } else if sum < 200000 {
            Some(TimeSumRoles::Fourteen)
        } else {
            Some(TimeSumRoles::Fifteen)
        }
    }
}

/// Position of a streak role on its ladder (1 for the lowest).
pub open spec fn streak_rank(r: StreakRoles) -> nat {
    match r {
        StreakRoles::Egg => 1,
        StreakRoles::HatchingChick => 2,
        StreakRoles::BabyChick => 3,
        StreakRoles::Chicken => 4,
        StreakRoles::Dove => 5,
        StreakRoles::Owl => 6,
        StreakRoles::Eagle => 7,
        StreakRoles::Dragon => 8,
        StreakRoles::Alien => 9,
        StreakRoles::SpaceInvader => 10,
    }
}

/// Rank of an optional streak role, 0 when there is none.
pub open spec fn streak_rank_opt(r: Option<StreakRoles>) -> nat {
    match r {
        Some(r) => streak_rank(r),
        None => 0,
    }
}

/// The streak role earned by a streak of `days` days.
pub open spec fn streak_role_for(days: int) -> Option<StreakRoles> {
    if days < 7 {
        None
    } else if days < 14 {
        Some(StreakRoles::Egg)
    } else if days < 28 {
        Some(StreakRoles::HatchingChick)
    } else if days < 35 {
        Some(StreakRoles::BabyChick)
    } else if days < 56 {
        Some(StreakRoles::Chicken)
    } else if days < 70 {
        Some(StreakRoles::Dove)
    } else if days < 140 {
        Some(StreakRoles::Owl)
    } else if days < 365 {
        Some(StreakRoles::Eagle)
    } else if days < 730 {
        Some(StreakRoles::Dragon)
    } else if days < 1825 {
        Some(StreakRoles::Alien)
    } else {
        Some(StreakRoles::SpaceInvader)
    }
}

/// The guild role identifier of a streak role.
pub open spec fn streak_role_id(r: StreakRoles) -> u64 {
    match r {
        StreakRoles::Egg => 857242224390832158u64,
        StreakRoles::HatchingChick => 857242222529347584u64,
        StreakRoles::BabyChick => 857242220675465227u64,
        StreakRoles::Chicken => 857242218695229450u64,
        StreakRoles::Dove => 857242216493219862u64,
        StreakRoles::Owl => 857242214588612629u64,
        StreakRoles::Eagle => 857242212991762463u64,
        StreakRoles::Dragon => 857242210302427186u64,
        StreakRoles::Alien => 857242155784863754u64,
        StreakRoles::SpaceInvader => 1226730813190836367u64,
    }
}

/// Whether a role identifier is one of the streak roles.
pub open spec fn is_streak_role_id(id: u64) -> bool {
    exists|r: StreakRoles| streak_role_id(r) == id
}

/// The icon shown for a streak role where a mention cannot be rendered.
pub open spec fn streak_role_icon(r: StreakRoles) -> Seq<char> {
    match r {
        StreakRoles::Egg => "🥚"@,
        StreakRoles::HatchingChick => "🐣"@,
        StreakRoles::BabyChick => "🐤"@,
        StreakRoles::Chicken => "🐔"@,
        StreakRoles::Dove => "🕊️"@,
        StreakRoles::Owl => "🦉"@,
        StreakRoles::Eagle => "🦅"@,
        StreakRoles::Dragon => "🐉"@,
        StreakRoles::Alien => "👽"@,
        StreakRoles::SpaceInvader => "👾"@,
    }
}

impl StreakRoles {
    /// The guild role identifier of this role.
    pub fn to_role_id(&self) -> (id: u64)
        ensures
            id == streak_role_id(*self),
    {
        match self {
            StreakRoles::Egg => 857242224390832158u64,
            StreakRoles::HatchingChick => 857242222529347584u64,
            StreakRoles::BabyChick => 857242220675465227u64,
            StreakRoles::Chicken => 857242218695229450u64,
            StreakRoles::Dove => 857242216493219862u64,
            StreakRoles::Owl => 857242214588612629u64,
            StreakRoles::Eagle => 857242212991762463u64,
            StreakRoles::Dragon => 857242210302427186u64,
            StreakRoles::Alien => 857242155784863754u64,
            StreakRoles::SpaceInvader => 1226730813190836367u64,
        }
    }

    /// The icon for this role.
    pub fn to_role_icon<'a>(&self) -> (icon: &'a str)
        ensures
            icon@ == streak_role_icon(*self),
    {
        match self {
            StreakRoles::Egg => "🥚",
            StreakRoles::HatchingChick => "🐣",
            StreakRoles::BabyChick => "🐤",
            StreakRoles::Chicken => "🐔",
            StreakRoles::Dove => "🕊️",
            StreakRoles::Owl => "🦉",
            StreakRoles::Eagle => "🦅",
            StreakRoles::Dragon => "🐉",
            StreakRoles::Alien => "👽",
            StreakRoles::SpaceInvader => "👾",
        }
    }

    /// The streak role earned by a streak of `streak` days, if any.
    pub fn from_streak(streak: u64) -> (r: Option<StreakRoles>)
        ensures
            r == streak_role_for(streak as int),
    {
        if streak < 7 {
            None
        } else if streak < 14 {
            Some(StreakRoles::Egg)
        } else if streak < 28 {
            Some(StreakRoles::HatchingChick)
        } else if streak < 35 {
            Some(StreakRoles::BabyChick)
        } else if streak < 56 {
            Some(StreakRoles::Chicken)
        } else if streak < 70 {
            Some(StreakRoles::Dove)
        } else if streak < 140 {
            Some(StreakRoles::Owl)
        } else if streak < 365 {
            Some(StreakRoles::Eagle)
        } else if streak < 730 {
            Some(StreakRoles::Dragon)
        } else if streak < 1825 {
            Some(StreakRoles::Alien)
        } else {
            Some(StreakRoles::SpaceInvader)
        }
    }

    /// The member's role identifiers that are streak roles, in their original order.
    pub fn current(member_roles: &Vec<u64>) -> (res: Vec<u64>)
        ensures
            res@ == member_roles@.filter(|id: u64| is_streak_role_id(id)),
    {
        let ghost pred = |id: u64| is_streak_role_id(id);
        let mut res: Vec<u64> = Vec::new();
        let mut i: usize = 0;
        while i < member_roles.len()
            invariant
                i <= member_roles.len(),
                pred == (|id: u64| is_streak_role_id(id)),
                res@ == member_roles@.take(i as int).filter(pred),
            decreases member_roles.len() - i,
        {
            let id = member_roles[i];
            proof {
                member_roles@.take(i as int).lemma_filter_push(id, pred);
                assert(member_roles@.take(i as int + 1) =~= member_roles@.take(i as int).push(id));
            }
            match StreakRoles::from_role_id(id) {
                Some(role) => {
                    let rid = role.to_role_id();
                    assert(pred(id)) by {
                        assert(streak_role_id(role) == id);
                    }
                    res.push(rid);
                },
                None => {
                    assert(!pred(id));
                },
            }
            i += 1;
        }
        assert(member_roles@.take(member_roles.len() as int) =~= member_roles@);
        res
    }

    /// The streak role with the given identifier, if any.
    pub fn from_role_id(id: u64) -> (r: Option<StreakRoles>)
        ensures
            r matches Some(role) ==> streak_role_id(role) == id,
            r is None ==> !is_streak_role_id(id),
    {
        if id == 857242224390832158u64 {
            Some(StreakRoles::Egg)
        } else if id == 857242222529347584u64 {
            Some(StreakRoles::HatchingChick)
        } else if id == 857242220675465227u64 {
            Some(StreakRoles::BabyChick)
        } else if id == 857242218695229450u64 {
            Some(StreakRoles::Chicken)
        } else if id == 857242216493219862u64 {
            Some(StreakRoles::Dove)
        } else if id == 857242214588612629u64 {
            Some(StreakRoles::Owl)
        } else if id == 857242212991762463u64 {
            Some(StreakRoles::Eagle)
        } else if id == 857242210302427186u64 {
            Some(StreakRoles::Dragon)
        } else if id == 857242155784863754u64 {
            Some(StreakRoles::Alien)
        } else if id == 1226730813190836367u64 {
            Some(StreakRoles::SpaceInvader)
        } else {
            assert forall|r: StreakRoles| streak_role_id(r) != id by {
                match r {
                    _ => {},
                }
            }
            None
        }
    }
}

/// A higher minute total never earns a lower time role.
pub proof fn lemma_time_roles_monotone(a: i64, b: i64)
    requires
        a <= b,
    ensures
        time_rank_opt(time_role_for(a as int)) <= time_rank_opt(time_role_for(b as int)),
{
}

/// A longer streak never earns a lower streak role.
pub proof fn lemma_streak_roles_monotone(a: u64, b: u64)
    requires
        a <= b,
    ensures
        streak_rank_opt(streak_role_for(a as int)) <= streak_rank_opt(streak_role_for(b as int)),
{
}

/// The streak ladder skips no role: one more day of streak either keeps the
/// role or gives the next one up, and the role only changes on reaching 7,
/// 14, 28, 35, 56, 70, 140, 365, 730 or 1825 days (one and two weeks, four and
/// five weeks, eight and ten weeks, twenty weeks, one, two and five years).
pub proof fn lemma_streak_ladder_steps(d: int)
    ensures
        streak_rank_opt(streak_role_for(d)) <= streak_rank_opt(streak_role_for(d + 1)) <= streak_rank_opt(
            streak_role_for(d),
        ) + 1,
        streak_role_for(d) != streak_role_for(d + 1) ==> (d + 1 == 7 || d + 1 == 14 || d + 1 == 28 || d + 1 == 35 || d
            + 1 == 56 || d + 1 == 70 || d + 1 == 140 || d + 1 == 365 || d + 1 == 730 || d + 1 == 1825),
{
}

/// Every streak role is awarded for some streak, none below a week; the
/// lowest role comes at one week and the highest is kept for ever after.
pub proof fn lemma_every_streak_role_awarded(r: StreakRoles)
    ensures
        exists|d: int| 7 <= d && #[trigger] streak_role_for(d) == Some(r),
        forall|d: int| d < 7 <==> #[trigger] streak_role_for(d) is None,
        streak_role_for(7) == Some(StreakRoles::Egg),
        forall|d: int| d >= 1825 ==> #[trigger] streak_role_for(d) == Some(StreakRoles::SpaceInvader),
{
    let d: int = match r {
        StreakRoles::Egg => 7,
        StreakRoles::HatchingChick => 14,
        StreakRoles::BabyChick => 28,
        StreakRoles::Chicken => 35,
        StreakRoles::Dove => 56,
        StreakRoles::Owl => 70,
        StreakRoles::Eagle => 140,
        StreakRoles::Dragon => 365,
        StreakRoles::Alien => 730,
        StreakRoles::SpaceInvader => 1825,
    };
    assert(streak_role_for(d) == Some(r));
}

/// The time ladder skips no role: one more minute either keeps the role or
/// gives the next one up, and the role only changes on reaching 50, 100, 150,
/// 250, 500, 1000, 2000, 5000, 10000, 20000, 50000, 100000, 120000, 150000 or
/// 200000 minutes.
pub proof fn lemma_time_ladder_steps(m: int)
    ensures
        time_rank_opt(time_role_for(m)) <= time_rank_opt(time_role_for(m + 1)) <= time_rank_opt(time_role_for(m)) + 1,
        time_role_for(m) != time_role_for(m + 1) ==> (m + 1 == 50 || m + 1 == 100 || m + 1 == 150 || m + 1 == 250 || m + 1 == 500 || m + 1 == 1000 || m + 1 == 2000 || m + 1 == 5000 || m + 1 == 10000 || m + 1 == 20000 || m + 1 == 50000 || m + 1 == 100000 || m + 1 == 120000 || m + 1 == 150000 || m + 1 == 200000),
{
}

/// Every time role is awarded for some total, none below 50 minutes.
pub proof fn lemma_every_time_role_awarded(r: TimeSumRoles)
    ensures
        exists|m: int| 50 <= m && #[trigger] time_role_for(m) == Some(r),
        forall|m: int| m < 50 <==> #[trigger] time_role_for(m) is None,
{
    let m: int = match r {
        TimeSumRoles::One => 50,
        TimeSumRoles::Two => 100,
        TimeSumRoles::Three => 150,
        TimeSumRoles::Four => 250,
        TimeSumRoles::Five => 500,
        TimeSumRoles::Six => 1000,
        TimeSumRoles::Seven => 2000,
        TimeSumRoles::Eight => 5000,
        TimeSumRoles::Nine => 10000,
        TimeSumRoles::Ten => 20000,
        TimeSumRoles::Eleven => 50000,
        TimeSumRoles::Twelve => 100000,
        TimeSumRoles::Thirteen => 120000,
        TimeSumRoles::Fourteen => 150000,
        TimeSumRoles::Fifteen => 200000,
    };
    assert(time_role_for(m) == Some(r));
}

/// Distinct time roles have distinct identifiers, so a role is recovered from its identifier.
pub proof fn lemma_time_role_id_injective(r1: TimeSumRoles, r2: TimeSumRoles)
    ensures
        time_role_id(r1) == time_role_id(r2) ==> r1 == r2,
{
}

/// Distinct streak roles have distinct identifiers, so a role is recovered from its identifier.
pub proof fn lemma_streak_role_id_injective(r1: StreakRoles, r2: StreakRoles)
    ensures
        streak_role_id(r1) == streak_role_id(r2) ==> r1 == r2,
{
}

/// No identifier names both a time role and a streak role.
pub proof fn lemma_role_ladders_disjoint(t: TimeSumRoles, s: StreakRoles)
    ensures
        time_role_id(t) != streak_role_id(s),
{
}

} // verus!

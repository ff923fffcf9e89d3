//! Streak computation. The database reports, for one member, the distinct
//! numbers of days ago on which they meditated, most recent first; from these
//! and the longest streak recorded so far the current and longest streaks follow.
use vstd::prelude::*;
use crate::text::{int_decimal, push_i64, push_str};

verus! {

/// A member's current and longest streak, in days.
#[derive(Debug, Clone, Copy, PartialEq, Eq, Structural)]
pub struct Streak {
    pub current: i32,
    pub longest: i32,
}

/// Length of the run of consecutive days that starts at index `i`: the entries
/// `days[i], days[i+1], ...` as long as each is one more than the one before.
pub open spec fn run_len(days: Seq<i32>, i: int) -> nat
    decreases days.len() - i,
{
    if i < 0 || i >= days.len() {
        0
    } else if i + 1 < days.len() && days[i + 1] as int == days[i] as int + 1 {
        1 + run_len(days, i + 1)
    } else {
        1
    }
}

/// A run of a single day does not count as a streak.
pub open spec fn streak_of(n: int) -> int {
    if n < 2 {
        0
    } else {
        n
    }
}

pub open spec fn max_int(a: int, b: int) -> int {
    if a >= b {
        a
    } else {
        b
    }
}

/// Best run among the runs that start at index `i` and follow it: runs that end
/// before the last entry count with their full length, the final run counts
/// only if it is a streak (two days or more).
pub open spec fn later_runs_best(days: Seq<i32>, i: int) -> int
    decreases days.len() - i,
{
    if i < 0 || i >= days.len() {
        0
    } else {
        let l = run_len(days, i);
        if i + l >= days.len() {
            streak_of(l as int)
        } else {
            max_int(l as int, later_runs_best(days, i + l))
        }
    }
}

/// Length of the most recent run of days (0 when there are no entries).
pub open spec fn first_run(days: Seq<i32>) -> int {
    run_len(days, 0) as int
}

/// The current streak: the most recent run, if it reaches today, yesterday or
/// the day before, and is at least two days long.
pub open spec fn streak_current(days: Seq<i32>) -> int {
    if days.len() == 0 {
        0
    } else if days[0] > 2 {
        0
    } else {
        streak_of(first_run(days))
    }
}

/// The longest streak. When a longest streak has been recorded before
/// (`stored > 0`), only the most recent run can raise it. Otherwise it is
/// computed over all runs of the history.
pub open spec fn streak_longest(stored: int, days: Seq<i32>) -> int {
    let l = first_run(days);
    if stored > 0 {
        max_int(stored, l)
    } else if days.len() == 0 {
        0
    } else if l >= days.len() {
        streak_of(l)
    } else {
        max_int(streak_of(l), later_runs_best(days, l))
    }
}

proof fn lemma_run_len_pos(days: Seq<i32>, i: int)
    requires
        0 <= i < days.len(),
    ensures
        1 <= run_len(days, i) <= days.len() - i,
    decreases days.len() - i,
{
    if i + 1 < days.len() && days[i + 1] as int == days[i] as int + 1 {
        lemma_run_len_pos(days, i + 1);
    }
}

proof fn lemma_later_runs_best_nonneg(days: Seq<i32>, i: int)
    ensures
        later_runs_best(days, i) >= 0,
    decreases days.len() - i,
{
    if 0 <= i < days.len() {
        lemma_run_len_pos(days, i);
        let l = run_len(days, i);
        if i + l < days.len() {
            lemma_later_runs_best_nonneg(days, i + l);
        }
    }
}

/// Computes the current and longest streak from the distinct days-ago values of
/// a member's sessions, in increasing order, and the longest streak stored so far
/// (0 when none has been stored).
pub fn compute_streak(stored_longest: i32, days_ago: &Vec<i32>) -> (res: Streak)
    requires
        days_ago.len() <= i32::MAX,
    ensures
        res.current == streak_current(days_ago@),
        res.longest == streak_longest(stored_longest as int, days_ago@),
        res.current == 0 || res.current >= 2,
        res.longest >= res.current,
        stored_longest >= 0 ==> res.longest >= stored_longest,
        res.longest >= streak_of(run_len(days_ago@, 0) as int),
{
    proof {
        lemma_current_within_longest(stored_longest, days_ago@);
        lemma_longest_covers_recent_run(stored_longest, days_ago@);
    }
    let n = days_ago.len();
    if n == 0 {
        let longest = if stored_longest > 0 { stored_longest } else { 0 };
        return Streak { current: 0, longest };
    }
    let first = days_ago[0];
    let broken = first > 2;
    let mut last: i32 = first;
    let mut streak: i32 = 1;
    let mut idx: usize = 1;
    let mut stopped = false;
    proof {
        lemma_run_len_pos(days_ago@, 0);
    }
    // The most recent run.
    while idx < n && !stopped
        invariant
            1 <= idx <= n,
            n == days_ago.len(),
            n <= i32::MAX,
            !stopped ==> streak == idx && last == days_ago@[idx - 1] && run_len(days_ago@, 0)
                == (idx - 1) + run_len(days_ago@, idx - 1),
            stopped ==> streak == idx - 1 && streak == run_len(days_ago@, 0) && last
                == days_ago@[idx - 1],
        decreases n - idx,
    {
        let d = days_ago[idx];
        idx += 1;
        if (d as i64) != (last as i64) + 1 {
            last = d;
            stopped = true;
        } else {
            last = d;
            streak += 1;
        }
    }
    assert(streak == first_run(days_ago@));
    let current = if broken {
        0
    } else if streak < 2 {
        0
    } else {
        streak
    };
    if stored_longest > 0 {
        let longest = if streak > stored_longest {
            if streak < 2 {
                0
            } else {
                streak
            }
        } else {
            stored_longest
        };
        return Streak { current, longest };
    }
    let mut longest: i32 = if streak < 2 {
        0
    } else {
        streak
    };
    if !stopped {
        return Streak { current, longest };
    }
    // The earlier runs, only when no longest streak was stored.
    let ghost target = max_int(streak_of(first_run(days_ago@)), later_runs_best(days_ago@, idx - 1));
    let ghost mut s: int = idx - 1;
    streak = 1;
    proof {
        lemma_run_len_pos(days_ago@, s);
    }
    while idx < n
        invariant
            0 <= s < idx <= n,
            n == days_ago.len(),
            n <= i32::MAX,
            streak == idx - s,
            last == days_ago@[idx - 1],
            run_len(days_ago@, s) == (idx - 1 - s) + run_len(days_ago@, idx - 1),
            longest >= 0,
            max_int(longest as int, later_runs_best(days_ago@, s)) == target,
        decreases n - idx,
    {
        let d = days_ago[idx];
        if (d as i64) != (last as i64) + 1 {
            proof {
                lemma_run_len_pos(days_ago@, idx as int);
                assert(run_len(days_ago@, idx - 1) == 1);
                assert(run_len(days_ago@, s) == streak);
                assert(later_runs_best(days_ago@, s) == max_int(
                    streak as int,
                    later_runs_best(days_ago@, idx as int),
                ));
            }
            if streak > longest {
                longest = streak;
            }
            streak = 1;
            proof {
                s = idx as int;
            }
        } else {
            proof {
                assert(run_len(days_ago@, idx - 1) == 1 + run_len(days_ago@, idx as int));
            }
            streak += 1;
        }
        last = d;
        idx += 1;
    }
    proof {
        assert(run_len(days_ago@, n - 1) == 1);
        assert(run_len(days_ago@, s) == streak);
        assert(later_runs_best(days_ago@, s) == streak_of(streak as int));
    }
    if streak > longest {
        longest = if streak < 2 {
            0
        } else {
            streak
        };
    }
    Streak { current, longest }
}

/// The current streak never exceeds the longest streak, and neither is negative.
pub proof fn lemma_current_within_longest(stored: i32, days: Seq<i32>)
    ensures
        0 <= streak_current(days) <= streak_longest(stored as int, days),
{
    if days.len() > 0 {
        lemma_run_len_pos(days, 0);
        let l = first_run(days);
        if l < days.len() {
            lemma_later_runs_best_nonneg(days, l);
        }
    }
}

/// The longest streak is at least the most recent run of consecutive days
/// when that run is two days or longer, whether or not the run still reaches
/// the last two days.
pub proof fn lemma_longest_covers_recent_run(stored: i32, days: Seq<i32>)
    ensures
        streak_longest(stored as int, days) >= streak_of(run_len(days, 0) as int),
{
    if days.len() > 0 {
        lemma_run_len_pos(days, 0);
        let l = first_run(days);
        if l < days.len() {
            lemma_later_runs_best_nonneg(days, l);
        }
    }
}

/// Index `k` starts a run of consecutive days: it is the first entry, or it
/// does not follow the entry before it by one day.
pub open spec fn starts_run(days: Seq<i32>, k: int) -> bool {
    0 <= k < days.len() && (k == 0 || days[k] as int != days[k - 1] as int + 1)
}

proof fn lemma_inside_run(days: Seq<i32>, i: int, j: int)
    requires
        0 <= i < j < i + run_len(days, i),
        j < days.len(),
    ensures
        days[j] as int == days[j - 1] as int + 1,
    decreases days.len() - i,
{
    if j > i + 1 {
        lemma_inside_run(days, i + 1, j);
    }
}

proof fn lemma_later_runs_cover(days: Seq<i32>, i: int, k: int)
    requires
        0 <= i <= k,
        k == i || starts_run(days, k),
        k < days.len(),
    ensures
        later_runs_best(days, i) >= streak_of(run_len(days, k) as int),
    decreases days.len() - i,
{
    lemma_run_len_pos(days, i);
    let l = run_len(days, i) as int;
    if k != i {
        if k < i + l {
            lemma_inside_run(days, i, k);
        }
        lemma_later_runs_cover(days, i + l, k);
    }
}

/// The first time the longest streak is worked out (nothing recorded yet), it
/// is at least every run of two or more consecutive days in the whole
/// history, not just the most recent one.
pub proof fn lemma_longest_covers_every_run(stored: i32, days: Seq<i32>, k: int)
    requires
        stored <= 0,
        starts_run(days, k),
    ensures
        streak_longest(stored as int, days) >= streak_of(run_len(days, k) as int),
{
    lemma_run_len_pos(days, 0);
    let l = first_run(days);
    if k == 0 {
        if l < days.len() {
            lemma_later_runs_best_nonneg(days, l);
        }
    } else {
        if k < l {
            lemma_inside_run(days, 0, k);
        }
        lemma_later_runs_cover(days, l, k);
    }
}

/// Once a longest streak has been recorded, recomputing never lowers it.
pub proof fn lemma_longest_never_decreases(stored: i32, days: Seq<i32>)
    requires
        stored > 0,
    ensures
        streak_longest(stored as int, days) >= stored,
{
}

/// For every history of days and every recorded longest streak `stored`
/// (never negative): the current streak is 0 or at least two days, the
/// longest streak is at least the current one, and it is never below the one
/// recorded.
pub proof fn lemma_streak_bounds(stored: i32, days: Seq<i32>)
    requires
        stored >= 0,
    ensures
        streak_current(days) == 0 || streak_current(days) >= 2,
        streak_longest(stored as int, days) >= streak_current(days),
        streak_longest(stored as int, days) >= stored,
{
    lemma_current_within_longest(stored, days);
}

/// A member whose most recent session is more than two days old has no current streak.
pub proof fn lemma_stale_history_breaks_streak(days: Seq<i32>)
    requires
        days.len() > 0,
        days[0] > 2,
    ensures
        streak_current(days) == 0,
{
}

/// A most recent run that reaches the last two days and spans at least two days
/// is the current streak.
pub proof fn lemma_recent_run_is_current(days: Seq<i32>)
    requires
        days.len() > 0,
        days[0] <= 2,
        first_run(days) >= 2,
    ensures
        streak_current(days) == first_run(days),
{
}

/// The reply to a streak query: its text and whether only the asker sees it.
pub struct StreakReply {
    pub text: String,
    pub ephemeral: bool,
}

/// The sentence about a member's streak; `name` is `None` for the asker's own.
pub open spec fn streak_sentence(s: Streak, name: Option<Seq<char>>, private_note: bool) -> Seq<char> {
    let current = int_decimal(s.current as int);
    match name {
        None => if s.current == s.longest {
            "Your current meditation streak is "@ + current + " days. This is your longest streak."@
        } else {
            "Your current meditation streak is "@ + current + " days. Your longest streak is "@
                + int_decimal(s.longest as int) + " days."@
        },
        Some(n) => n + (if private_note {
            "'s current **private** meditation streak is "@
        } else {
            "'s current meditation streak is "@
        }) + current + (if s.current == s.longest {
            " days. This is "@ + n + "'s longest streak."@
        } else {
            " days. "@ + n + "'s longest streak is "@ + int_decimal(s.longest as int) + " days."@
        }),
    }
}

/// The reply to a streak query about the asker (`other` is `None`) or about
/// another member named `other`: another member's private streak is shown
/// only to staff, and always privately; otherwise the reply is private when
/// `private_reply` asks for it.
pub fn streak_reply(
    s: Streak,
    other: Option<&str>,
    streak_private: bool,
    viewer_is_staff: bool,
    private_reply: bool,
) -> (r: StreakReply)
    ensures
        match other {
            None => r.text@ == streak_sentence(s, None, false) && r.ephemeral == private_reply,
            Some(n) => if streak_private {
                &&& r.ephemeral
                &&& r.text@ == (if viewer_is_staff {
                    streak_sentence(s, Some(n@), true)
                } else {
                    "Sorry, "@ + n@ + "'s meditation streak is set to private."@
                })
            } else {
                r.text@ == streak_sentence(s, Some(n@), false) && r.ephemeral == private_reply
            },
        },
{
    match other {
        None => {
            let mut t = String::new();
            push_str(&mut t, "Your current meditation streak is ");
            push_i64(&mut t, s.current as i64);
            if s.current == s.longest {
                push_str(&mut t, " days. This is your longest streak.");
            } else {
                push_str(&mut t, " days. Your longest streak is ");
                push_i64(&mut t, s.longest as i64);
                push_str(&mut t, " days.");
            }
            StreakReply { text: t, ephemeral: private_reply }
        },
        Some(n) => {
            if streak_private && !viewer_is_staff {
                let mut t = String::new();
                push_str(&mut t, "Sorry, ");
                push_str(&mut t, n);
                push_str(&mut t, "'s meditation streak is set to private.");
                return StreakReply { text: t, ephemeral: true };
            }
            let mut t = String::new();
            push_str(&mut t, n);
            if streak_private {
                push_str(&mut t, "'s current **private** meditation streak is ");
            } else {
                push_str(&mut t, "'s current meditation streak is ");
            }
            push_i64(&mut t, s.current as i64);
            if s.current == s.longest {
                push_str(&mut t, " days. This is ");
                push_str(&mut t, n);
                push_str(&mut t, "'s longest streak.");
            } else {
                push_str(&mut t, " days. ");
                push_str(&mut t, n);
                push_str(&mut t, "'s longest streak is ");
                push_i64(&mut t, s.longest as i64);
                push_str(&mut t, " days.");
            }
            StreakReply { text: t, ephemeral: if streak_private { true } else { private_reply } }
        },
    }
}

} // verus!

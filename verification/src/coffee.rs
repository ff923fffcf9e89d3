//! The `/coffee` game: a coin toss between a cup and a coffin, with a pair of
//! its own for two members.
use vstd::prelude::*;
use crate::text::str_to_string;

verus! {

/// The random number generator the bot shares between commands.
#[verifier::external_type_specification]
#[verifier::external_body]
pub struct ExSmallRng(rand::rngs::SmallRng);

/// A member who gets the derpman emoji in place of the coffin.
pub const BABYCOMEBACK: u64 = 762_671_692_430_180_363;

/// A member who gets tea in place of coffee.
pub const TEACUPS: u64 = 1_085_468_454_578_044_979;

/// The two possible answers for a member: the lucky one first.
pub open spec fn coffee_pair(user_id: u64) -> (Seq<char>, Seq<char>) {
    if user_id == BABYCOMEBACK {
        ("☕"@, "<:derpman:1309907402958700615>"@)
    } else if user_id == TEACUPS {
        ("🍵"@, "⚰️"@)
    } else {
        ("☕"@, "⚰️"@)
    }
}

/// The answer for a member once the coin has fallen (`lucky` for the first).
pub fn coffee_reply(user_id: u64, lucky: bool) -> (s: String)
    ensures
        s@ == (if lucky {
            coffee_pair(user_id).0
        } else {
            coffee_pair(user_id).1
        }),
{
    if user_id == BABYCOMEBACK {
        if lucky {
            str_to_string("☕")
        } else {
            str_to_string("<:derpman:1309907402958700615>")
        }
    } else if user_id == TEACUPS {
        if lucky {
            str_to_string("🍵")
        } else {
            str_to_string("⚰️")
        }
    } else if lucky {
        str_to_string("☕")
    } else {
        str_to_string("⚰️")
    }
}

/// A coin toss drawn from the generator with `rand::Rng::random::<bool>`.
/// The outcome depends on the generator's state and is left unstated.
#[verifier::external_body]
fn coin_toss(rng: &mut rand::rngs::SmallRng) -> bool {
    rand::Rng::random::<bool>(rng)
}

/// Plays `/coffee` for a member: one of the member's two answers, chosen by a
/// coin toss.
pub fn coffee(user_id: u64, rng: &mut rand::rngs::SmallRng) -> (s: String)
    ensures
        s@ == coffee_pair(user_id).0 || s@ == coffee_pair(user_id).1,
{
    let lucky = coin_toss(rng);
    coffee_reply(user_id, lucky)
}

} // verus!

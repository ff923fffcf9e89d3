//! The small utility commands: uptime, latency and the greeting.
use vstd::prelude::*;
use crate::text::{nat_decimal, push_str, push_u64, str_to_string};

verus! {

/// A running time in whole seconds as days, hours, minutes and seconds.
pub open spec fn day_hms(total: nat) -> (nat, nat, nat, nat) {
    let minutes = total / 60;
    let hours = minutes / 60;
    (hours / 24, hours % 24, minutes % 60, total % 60)
}

/// The uptime report for a running time of `seconds` whole seconds.
pub fn uptime_message(seconds: u64) -> (s: String)
    ensures
        ({
            let (d, h, m, sec) = day_hms(seconds as nat);
            s@ == "My current uptime is "@ + nat_decimal(d) + "d "@ + nat_decimal(h) + "h "@ + nat_decimal(m) + "m "@
                + nat_decimal(sec) + "s."@
        }),
{
    let minutes = seconds / 60;
    let secs = seconds % 60;
    let hours = minutes / 60;
    let mins = minutes % 60;
    let days = hours / 24;
    let hrs = hours % 24;
    let mut s = String::new();
    push_str(&mut s, "My current uptime is ");
    push_u64(&mut s, days);
    push_str(&mut s, "d ");
    push_u64(&mut s, hrs);
    push_str(&mut s, "h ");
    push_u64(&mut s, mins);
    push_str(&mut s, "m ");
    push_u64(&mut s, secs);
    push_str(&mut s, "s.");
    s
}

/// The parts of an uptime add back up to the running time, with hours below
/// 24 and minutes and seconds below 60.
pub proof fn lemma_uptime_recomposes(total: nat)
    ensures
        ({
            let (d, h, m, s) = day_hms(total);
            &&& d * 86400 + h * 3600 + m * 60 + s == total
            &&& h < 24
            &&& m < 60
            &&& s < 60
        }),
{
    let minutes = total / 60;
    let hours = minutes / 60;
    assert(total == 60 * minutes + total % 60);
    assert(minutes == 60 * hours + minutes % 60);
    assert(hours == 24 * (hours / 24) + hours % 24);
}

/// The latency report.
pub fn pong_message(millis: u64) -> (s: String)
    ensures
        s@ == ":ping_pong: Pong! Latency is "@ + nat_decimal(millis as nat) + "ms."@,
{
    let mut s = String::new();
    push_str(&mut s, ":ping_pong: Pong! Latency is ");
    push_u64(&mut s, millis);
    push_str(&mut s, "ms.");
    s
}

/// Bloom's greeting.
pub fn hello() -> (s: String)
    ensures
        s@ == "Hello, friend!"@,
{
    str_to_string("Hello, friend!")
}

} // verus!

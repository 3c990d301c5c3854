//! Small formatting helpers shared by the widgets (relative time, durations).
//!
//! Times are Unix seconds; durations are whole seconds.

use vstd::prelude::*;
use crate::adapters::clock::utc_now_seconds;
use crate::domain::run::clamp_i64;
use crate::text::{decimal, push_decimal, push_str};

verus! {

/// Compact duration text: `45s`, `1m 12s`, `2h 3m` (negative counts as zero).
pub open spec fn duration_text(secs: i64) -> Seq<char> {
    let s: int = if secs < 0 { 0 } else { secs as int };
    if s < 60 {
        decimal(s as nat) + "s"@
    } else if s < 3600 {
        decimal((s / 60) as nat) + "m "@ + decimal((s % 60) as nat) + "s"@
    } else {
        decimal((s / 3600) as nat) + "h "@ + decimal(((s % 3600) / 60) as nat) + "m"@
    }
}

/// Compact "time ago" text for a delta of `secs`: `just now` under five
/// seconds, else the largest whole unit among s/m/h/d, then `suffix`.
pub open spec fn ago_text(secs: i64, suffix: Seq<char>) -> Seq<char> {
    if secs < 5 {
        "just now"@
    } else if secs < 60 {
        decimal(secs as nat) + "s "@ + suffix
    } else if secs < 3600 {
        decimal((secs / 60) as nat) + "m "@ + suffix
    } else if secs < 86_400 {
        decimal((secs / 3600) as nat) + "h "@ + suffix
    } else {
        decimal((secs / 86_400) as nat) + "d "@ + suffix
    }
}

/// Compact duration like `1m 12s`, `45s`, `2h 3m`.
pub fn humanize_duration(secs: i64) -> (r: String)
    ensures
        r@ == duration_text(secs),
{
    let s: u64 = if secs < 0 {
        0
    } else {
        secs as u64
    };
    let mut r = String::new();
    if s < 60 {
        push_decimal(&mut r, s);
        push_str(&mut r, "s");
    } else if s < 3600 {
        push_decimal(&mut r, s / 60);
        push_str(&mut r, "m ");
        push_decimal(&mut r, s % 60);
        push_str(&mut r, "s");
    } else {
        push_decimal(&mut r, s / 3600);
        push_str(&mut r, "h ");
        push_decimal(&mut r, (s % 3600) / 60);
        push_str(&mut r, "m");
    }
    r
}

/// "Time ago" text for a delta of `secs`, with `suffix`.
fn humanize(secs: i64, suffix: &str) -> (r: String)
    ensures
        r@ == ago_text(secs, suffix@),
{
    let mut r = String::new();
    if secs < 5 {
        push_str(&mut r, "just now");
        return r;
    }
    let s = secs as u64;
    if secs < 60 {
        push_decimal(&mut r, s);
        push_str(&mut r, "s ");
    } else if secs < 3600 {
        push_decimal(&mut r, s / 60);
        push_str(&mut r, "m ");
    } else if secs < 86_400 {
        push_decimal(&mut r, s / 3600);
        push_str(&mut r, "h ");
    } else {
        push_decimal(&mut r, s / 86_400);
        push_str(&mut r, "d ");
    }
    push_str(&mut r, suffix);
    r
}

/// Compact "time ago" text for `then`, as seen at `now`, e.g. `3m ago`.
pub fn relative_time_at(then: i64, now: i64) -> (r: String)
    ensures
        r@ == ago_text(clamp_i64(now - then), "ago"@),
{
    let delta: i64 = match now.checked_sub(then) {
        Some(d) => d,
        None => if now > then {
            i64::MAX
        } else {
            i64::MIN
        },
    };
    humanize(delta, "ago")
}

/// Compact "time ago" text for `then`, as seen now on the system clock,
/// e.g. `3m ago`, `2h ago`, `just now`.
pub fn relative_time(then: i64) -> (r: String)
    ensures
        exists|now: i64| r@ == #[trigger] ago_text(clamp_i64(now - then), "ago"@),
{
    let now = utc_now_seconds();
    relative_time_at(then, now)
}

} // verus!

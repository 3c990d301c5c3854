//! Adaptive polling tiers — how often a given project should be re-checked.
//!
//! Each project is classified into a [`PollTier`] from its current state and
//! recent history; each tier maps to a base interval. Pure: no clock, no I/O.
//! Durations are whole seconds.

use vstd::prelude::*;

verus! {

/// How "hot" a project is, deciding its polling cadence. Ordered hottest-first.
#[derive(Debug, Clone, Copy, PartialEq, Eq, Structural)]
pub enum PollTier {
    /// Has not been fetched yet — poll immediately.
    Idle,
    /// A run is currently in progress or queued — poll very frequently.
    Active,
    /// Recently active or last run failed — poll often.
    Recent,
    /// Healthy and quiet for a while — poll slowly.
    Stable,
    /// No CI/CD at all (loaded, but zero runs) — poll very rarely.
    Dormant,
    /// Repeated fetch errors — poll on an exponential backoff.
    Backoff,
}

impl PollTier {
    pub open spec fn spec_label(self) -> Seq<char> {
        match self {
            PollTier::Idle => "idle"@,
            PollTier::Active => "active"@,
            PollTier::Recent => "recent"@,
            PollTier::Stable => "stable"@,
            PollTier::Dormant => "dormant"@,
            PollTier::Backoff => "backoff"@,
        }
    }

    /// Human label for diagnostics / the detail pane.
    pub fn label(self) -> (r: &'static str)
        ensures
            r@ == self.spec_label(),
    {
        match self {
            PollTier::Idle => "idle",
            PollTier::Active => "active",
            PollTier::Recent => "recent",
            PollTier::Stable => "stable",
            PollTier::Dormant => "dormant",
            PollTier::Backoff => "backoff",
        }
    }
}

/// Base polling intervals per tier, in seconds.
#[derive(Debug, Clone, Copy, PartialEq, Eq, Structural)]
pub struct PollIntervals {
    pub active: u64,
    pub recent: u64,
    pub stable: u64,
    pub dormant: u64,
    pub backoff_base: u64,
    pub backoff_cap: u64,
    /// How long to pause *all* polling after a rate-limit response.
    pub rate_limit_cooldown: u64,
}

/// `2^n`.
pub open spec fn two_pow(n: nat) -> nat
    decreases n,
{
    if n == 0 {
        1
    } else {
        2 * two_pow((n - 1) as nat)
    }
}

/// Largest exponent the backoff grows to.
pub const MAX_BACKOFF_SHIFT: u32 = 16;

/// Exponent of the backoff after `errors` consecutive failures:
/// `min(errors - 1, 16)`, with `errors - 1` saturating at zero.
pub open spec fn backoff_shift(errors: u32) -> nat {
    let e: int = if errors == 0 { 0 } else { errors - 1 };
    if e <= 16 { e as nat } else { 16 }
}

/// `base × 2^shift`, saturating at `u64::MAX`, then capped at `cap`.
pub open spec fn backoff_wait(base: u64, cap: u64, errors: u32) -> u64 {
    let scaled: int = base * two_pow(backoff_shift(errors));
    let sat: int = if scaled > u64::MAX { u64::MAX as int } else { scaled };
    if sat <= cap { sat as u64 } else { cap }
}

impl Default for PollIntervals {
    fn default() -> (r: PollIntervals)
        ensures
            r == (PollIntervals {
                active: 10,
                recent: 45,
                stable: 300,
                dormant: 1800,
                backoff_base: 30,
                backoff_cap: 900,
                rate_limit_cooldown: 60,
            }),
    {
        PollIntervals::default_intervals()
    }
}

impl PollIntervals {
    /// The configured defaults.
    pub fn default_intervals() -> (r: PollIntervals)
        ensures
            r == (PollIntervals {
                active: 10,
                recent: 45,
                stable: 300,
                dormant: 1800,
                backoff_base: 30,
                backoff_cap: 900,
                rate_limit_cooldown: 60,
            }),
    {
        PollIntervals {
            active: 10,
            recent: 45,
            stable: 300,
            dormant: 1800,
            backoff_base: 30,
            backoff_cap: 900,
            rate_limit_cooldown: 60,
        }
    }

    pub open spec fn spec_interval_for(self, tier: PollTier, consecutive_errors: u32) -> u64 {
        match tier {
            PollTier::Idle => 0,
            PollTier::Active => self.active,
            PollTier::Recent => self.recent,
            PollTier::Stable => self.stable,
            PollTier::Dormant => self.dormant,
            PollTier::Backoff => backoff_wait(
                self.backoff_base,
                self.backoff_cap,
                consecutive_errors,
            ),
        }
    }

    /// The wait (seconds) before a project of `tier` becomes due again.
    ///
    /// `consecutive_errors` only matters for [`PollTier::Backoff`], where the
    /// wait grows exponentially (`base × 2^(errors-1)`), capped at `backoff_cap`.
    pub fn interval_for(&self, tier: PollTier, consecutive_errors: u32) -> (r: u64)
        ensures
            r == self.spec_interval_for(tier, consecutive_errors),
    {
        match tier {
            PollTier::Idle => 0,
            PollTier::Active => self.active,
            PollTier::Recent => self.recent,
            PollTier::Stable => self.stable,
            PollTier::Dormant => self.dormant,
            PollTier::Backoff => {
                let e = consecutive_errors.saturating_sub(1);
                let shift: u32 = if e < MAX_BACKOFF_SHIFT { e } else { MAX_BACKOFF_SHIFT };
                assert(shift == backoff_shift(consecutive_errors));
                let mult = pow2_u64(shift);
                let scaled: u64 = match self.backoff_base.checked_mul(mult) {
                    Some(v) => v,
                    None => u64::MAX,
                };
                if scaled <= self.backoff_cap {
                    scaled
                } else {
                    self.backoff_cap
                }
            },
        }
    }
}

/// `2^shift` for small shifts.
fn pow2_u64(shift: u32) -> (r: u64)
    requires
        shift <= 16,
    ensures
        r == two_pow(shift as nat),
{
    let mut r: u64 = 1;
    let mut i: u32 = 0;
    while i < shift
        invariant
            i <= shift <= 16,
            r == two_pow(i as nat),
            r <= 65536,
        decreases shift - i,
    {
        proof {
            lemma_two_pow_bound(i as nat);
        }
        r = r * 2;
        i = i + 1;
    }
    r
}

proof fn lemma_two_pow_bound(n: nat)
    requires
        n < 16,
    ensures
        two_pow(n) <= 32768,
{
    lemma_two_pow_monotone(n, 15);
    assert(two_pow(15) == 32768) by {
        reveal_with_fuel(two_pow, 16);
    }
}

/// `2^a <= 2^b` whenever `a <= b`.
pub proof fn lemma_two_pow_monotone(a: nat, b: nat)
    requires
        a <= b,
    ensures
        1 <= two_pow(a) <= two_pow(b),
    decreases b,
{
    if b > 0 && a < b {
        lemma_two_pow_monotone(a, (b - 1) as nat);
    } else if b > 0 {
        lemma_two_pow_monotone((a - 1) as nat, (b - 1) as nat);
    }
}

/// The backoff wait never shrinks as consecutive errors grow, and never
/// exceeds the configured cap.
pub proof fn law_backoff_monotone_and_capped(intervals: PollIntervals, e1: u32, e2: u32)
    requires
        e1 <= e2,
    ensures
        intervals.spec_interval_for(PollTier::Backoff, e1) <= intervals.spec_interval_for(
            PollTier::Backoff,
            e2,
        ),
        intervals.spec_interval_for(PollTier::Backoff, e2) <= intervals.backoff_cap,
{
    let s1 = backoff_shift(e1);
    let s2 = backoff_shift(e2);
    lemma_two_pow_monotone(s1, s2);
    let b = intervals.backoff_base as int;
    assert(b * two_pow(s1) <= b * two_pow(s2)) by (nonlinear_arith)
        requires
            b >= 0,
            two_pow(s1) <= two_pow(s2),
    ;
}

/// A never-fetched project is due immediately; every other tier waits
/// exactly its configured base interval.
pub proof fn law_tier_base_intervals(intervals: PollIntervals, errors: u32)
    ensures
        intervals.spec_interval_for(PollTier::Idle, errors) == 0,
        intervals.spec_interval_for(PollTier::Active, errors) == intervals.active,
        intervals.spec_interval_for(PollTier::Recent, errors) == intervals.recent,
        intervals.spec_interval_for(PollTier::Stable, errors) == intervals.stable,
        intervals.spec_interval_for(PollTier::Dormant, errors) == intervals.dormant,
{
}

} // verus!

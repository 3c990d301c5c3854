use github_status::domain::{PollIntervals, PollTier};

#[test]
fn idle_is_immediate() {
    let i = PollIntervals::default();
    assert_eq!(i.interval_for(PollTier::Idle, 0), 0);
}

#[test]
fn active_polls_faster_than_stable() {
    let i = PollIntervals::default();
    assert!(i.interval_for(PollTier::Active, 0) < i.interval_for(PollTier::Stable, 0));
}

#[test]
fn dormant_is_the_slowest_non_backoff() {
    let i = PollIntervals::default();
    assert!(i.interval_for(PollTier::Dormant, 0) > i.interval_for(PollTier::Stable, 0));
}

#[test]
fn backoff_grows_exponentially_and_caps() {
    let i = PollIntervals::default();
    assert_eq!(i.interval_for(PollTier::Backoff, 1), 30);
    assert_eq!(i.interval_for(PollTier::Backoff, 2), 60);
    assert_eq!(i.interval_for(PollTier::Backoff, 3), 120);
    assert_eq!(i.interval_for(PollTier::Backoff, 99), i.backoff_cap);
}

#[test]
fn backoff_saturates_instead_of_overflowing() {
    let mut i = PollIntervals::default();
    i.backoff_base = u64::MAX / 2;
    i.backoff_cap = u64::MAX;
    assert_eq!(i.interval_for(PollTier::Backoff, 17), u64::MAX);
    assert_eq!(i.interval_for(PollTier::Backoff, 0), u64::MAX / 2);
}

#[test]
fn tier_labels() {
    assert_eq!(PollTier::Backoff.label(), "backoff");
    assert_eq!(PollTier::Dormant.label(), "dormant");
}

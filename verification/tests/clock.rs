use chrono::Utc;
use github_status::adapters::{FixedClock, SystemClock};
use github_status::ports::Clock;

#[test]
fn fixed_clock_is_stable_then_advances() {
    let t0 = Utc::now().timestamp();
    let mut clock = FixedClock::new(t0);
    assert_eq!(clock.now(), t0);
    clock.advance(30);
    assert_eq!(clock.now(), t0 + 30);
}

#[test]
fn fixed_clock_saturates_at_the_ends_of_time() {
    let mut clock = FixedClock::new(i64::MAX - 1);
    clock.advance(10);
    assert_eq!(clock.now(), i64::MAX);
    let mut early = FixedClock::new(i64::MIN + 1);
    early.advance(-10);
    assert_eq!(early.now(), i64::MIN);
}

#[test]
fn system_clock_reads_the_wall_clock() {
    let before = Utc::now().timestamp();
    let t = SystemClock.now();
    let after = Utc::now().timestamp();
    assert!(before <= t && t <= after);
}

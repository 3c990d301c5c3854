use chrono::Utc;
use github_status::tui::format::{humanize_duration, relative_time, relative_time_at};

#[test]
fn recent_is_just_now() {
    assert_eq!(relative_time(Utc::now().timestamp()), "just now");
}

#[test]
fn minutes_ago() {
    let then = Utc::now().timestamp() - 3 * 60;
    assert_eq!(relative_time(then), "3m ago");
}

#[test]
fn duration_formats() {
    assert_eq!(humanize_duration(45), "45s");
    assert_eq!(humanize_duration(72), "1m 12s");
    assert_eq!(humanize_duration(7380), "2h 3m");
}

#[test]
fn relative_time_picks_the_largest_unit() {
    assert_eq!(relative_time_at(1_000, 1_004), "just now");
    assert_eq!(relative_time_at(1_000, 1_059), "59s ago");
    assert_eq!(relative_time_at(0, 7_199), "1h ago");
    assert_eq!(relative_time_at(0, 3 * 86_400 + 5), "3d ago");
    assert_eq!(relative_time_at(100, 0), "just now");
}

#[test]
fn negative_durations_count_as_zero() {
    assert_eq!(humanize_duration(-5), "0s");
    assert_eq!(humanize_duration(3_600), "1h 0m");
}

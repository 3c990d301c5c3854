use github_status::domain::RunState;

#[test]
fn completed_success_maps_to_success() {
    assert_eq!(
        RunState::from_api("completed", Some("success")),
        RunState::Success
    );
}

#[test]
fn completed_failure_maps_to_failed() {
    assert_eq!(
        RunState::from_api("completed", Some("failure")),
        RunState::Failed
    );
    assert_eq!(
        RunState::from_api("completed", Some("startup_failure")),
        RunState::Failed
    );
}

#[test]
fn in_progress_is_active() {
    let s = RunState::from_api("in_progress", None);
    assert_eq!(s, RunState::InProgress);
    assert!(s.is_active());
}

#[test]
fn queued_variants() {
    for raw in ["queued", "waiting", "requested", "pending"] {
        assert_eq!(RunState::from_api(raw, None), RunState::Queued, "{raw}");
    }
}

#[test]
fn case_insensitive() {
    assert_eq!(
        RunState::from_api("COMPLETED", Some("SUCCESS")),
        RunState::Success
    );
}

#[test]
fn severity_orders_failure_first() {
    assert!(RunState::Failed.severity() < RunState::Success.severity());
    assert!(RunState::InProgress.severity() < RunState::Success.severity());
}

#[test]
fn unknown_for_unmapped() {
    assert_eq!(
        RunState::from_api("completed", Some("???")),
        RunState::Unknown
    );
    assert_eq!(RunState::from_api("weird", None), RunState::Unknown);
}

#[test]
fn completed_without_conclusion_is_unknown_and_stale_is_cancelled() {
    assert_eq!(RunState::from_api("completed", None), RunState::Unknown);
    assert_eq!(RunState::from_api("completed", Some("stale")), RunState::Cancelled);
    assert_eq!(RunState::from_api("completed", Some("canceled")), RunState::Cancelled);
}

#[test]
fn persist_keys_read_back_to_the_same_state() {
    let all = [
        RunState::Failed,
        RunState::Cancelled,
        RunState::TimedOut,
        RunState::ActionRequired,
        RunState::InProgress,
        RunState::Queued,
        RunState::Success,
        RunState::Skipped,
        RunState::Neutral,
        RunState::Unknown,
    ];
    for s in all {
        assert_eq!(RunState::from_persist_key(s.persist_key()), Some(s));
    }
    assert_eq!(RunState::from_persist_key("Failed"), None);
}

#[test]
fn failures_are_never_active() {
    for s in [RunState::Failed, RunState::TimedOut, RunState::Cancelled] {
        assert!(s.is_failure());
        assert!(!s.is_active());
    }
    assert_eq!(RunState::TimedOut.label(), "Timed out");
    assert_eq!(RunState::TimedOut.glyph(), "✗");
}

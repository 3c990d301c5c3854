use chrono::Utc;
use github_status::domain::{
    LoadState, PollIntervals, PollTier, Project, ProjectStatus, RunState, WorkflowRun,
};

fn now() -> i64 {
    Utc::now().timestamp()
}

fn loaded(owner: &str, repo: &str, state: RunState, ago_secs: i64) -> ProjectStatus {
    let updated = now() - ago_secs;
    let run = WorkflowRun {
        name: "CI".into(),
        run_number: 1,
        state,
        branch: "main".into(),
        short_sha: "abc1234".into(),
        event: "push".into(),
        created_at: updated,
        updated_at: updated,
        html_url: "https://example.com".into(),
    };
    ProjectStatus {
        project: Project::new(owner, repo),
        load: LoadState::Loaded {
            runs: vec![run],
            fetched_at: now(),
        },
        last_attempt_at: Some(now()),
        consecutive_errors: 0,
    }
}

fn sorted(mut v: Vec<ProjectStatus>) -> Vec<String> {
    v.sort_by(ProjectStatus::cmp_display);
    v.into_iter().map(|s| s.project.slug()).collect()
}

#[test]
fn failures_come_before_success() {
    let order = sorted(vec![
        loaded("o", "ok", RunState::Success, 10),
        loaded("o", "bad", RunState::Failed, 9999),
    ]);
    assert_eq!(order, vec!["o/bad", "o/ok"]);
}

#[test]
fn within_bucket_newer_activity_first() {
    let order = sorted(vec![
        loaded("o", "old", RunState::Success, 1000),
        loaded("o", "new", RunState::Success, 5),
    ]);
    assert_eq!(order, vec!["o/new", "o/old"]);
}

#[test]
fn action_required_outranks_active_and_healthy() {
    let order = sorted(vec![
        loaded("o", "healthy", RunState::Success, 1),
        loaded("o", "running", RunState::InProgress, 1),
        loaded("o", "action", RunState::ActionRequired, 1),
    ]);
    assert_eq!(order, vec!["o/action", "o/running", "o/healthy"]);
}

#[test]
fn idle_and_loading_sort_after_loaded() {
    let mut idle = ProjectStatus::new(Project::new("o", "idle"));
    idle.load = LoadState::Idle;
    let order = sorted(vec![idle, loaded("o", "done", RunState::Success, 1)]);
    assert_eq!(order, vec!["o/done", "o/idle"]);
}

#[test]
fn idle_project_is_due_and_idle_tier() {
    let s = ProjectStatus::new(Project::new("o", "r"));
    let now = now();
    assert_eq!(s.poll_tier(now), PollTier::Idle);
    assert!(s.is_due(&PollIntervals::default(), now));
}

#[test]
fn in_progress_run_is_active_tier() {
    let s = loaded("o", "r", RunState::InProgress, 1);
    assert_eq!(s.poll_tier(now()), PollTier::Active);
}

#[test]
fn loaded_without_runs_is_dormant() {
    let mut s = ProjectStatus::new(Project::new("o", "nocicd"));
    s.load = LoadState::Loaded {
        runs: vec![],
        fetched_at: now(),
    };
    s.last_attempt_at = Some(now());
    assert_eq!(s.poll_tier(now()), PollTier::Dormant);
}

#[test]
fn old_green_run_is_stable_recent_failure_is_recent() {
    let stable = loaded("o", "green", RunState::Success, 60 * 60);
    assert_eq!(stable.poll_tier(now()), PollTier::Stable);

    let failing = loaded("o", "red", RunState::Failed, 60 * 60);
    assert_eq!(failing.poll_tier(now()), PollTier::Recent);
}

#[test]
fn errors_force_backoff_tier() {
    let mut s = loaded("o", "r", RunState::Success, 5);
    s.consecutive_errors = 2;
    assert_eq!(s.poll_tier(now()), PollTier::Backoff);
}

#[test]
fn stable_project_not_due_until_interval_elapses() {
    let intervals = PollIntervals::default();
    let now = now();
    let mut s = loaded("o", "green", RunState::Success, 60 * 60);
    s.last_attempt_at = Some(now);
    assert!(!s.is_due(&intervals, now));
    assert!(s.is_due(&intervals, now + 360));
}

#[test]
fn loading_project_is_never_due() {
    let mut s = ProjectStatus::new(Project::new("o", "r"));
    s.load = LoadState::Loading;
    assert!(!s.is_due(&PollIntervals::default(), now()));
}

#[test]
fn ties_break_on_owner_then_repo() {
    let order = sorted(vec![
        ProjectStatus::new(Project::new("b", "a")),
        ProjectStatus::new(Project::new("a", "z")),
        ProjectStatus::new(Project::new("a", "b")),
    ]);
    assert_eq!(order, vec!["a/b", "a/z", "b/a"]);
}

#[test]
fn due_at_is_last_attempt_plus_tier_interval() {
    let mut s = loaded("o", "green", RunState::Success, 0);
    if let LoadState::Loaded { runs, .. } = &mut s.load {
        runs[0].created_at = 0;
        runs[0].updated_at = 0;
    }
    s.last_attempt_at = Some(1_000);
    let at = s.due_at(&PollIntervals::default(), 1_000 + 7_200);
    assert_eq!(at, Some(1_300));
    s.last_attempt_at = None;
    assert_eq!(s.due_at(&PollIntervals::default(), 0), None);
}

#[test]
fn display_sort_keeps_tied_projects_in_order() {
    let mut first = Project::new("o", "r");
    first.label = Some("first".into());
    let mut second = Project::new("o", "r");
    second.label = Some("second".into());
    let v = vec![
        ProjectStatus::new(first),
        ProjectStatus::new(Project::new("a", "a")),
        ProjectStatus::new(second),
    ];
    let out = github_status::domain::project_status::sort_for_display(v);
    let labels: Vec<Option<String>> = out.iter().map(|s| s.project.label.clone()).collect();
    assert_eq!(labels, vec![None, Some("first".to_string()), Some("second".to_string())]);
}

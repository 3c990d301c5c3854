use chrono::Utc;
use github_status::adapters::FixedClock;
use github_status::app::{Action, AppState, Command, PendingDelete, Toast};
use github_status::domain::{PollIntervals, Project, RunState, WorkflowRun};
use github_status::ports::ProviderError;

fn app(projects: Vec<Project>) -> AppState<FixedClock> {
    AppState::with_config(
        projects,
        PollIntervals::default(),
        FixedClock::new(Utc::now().timestamp()),
    )
}

fn project(owner: &str, repo: &str) -> Project {
    Project::new(owner, repo)
}

fn run(state: RunState) -> WorkflowRun {
    let now = Utc::now().timestamp();
    WorkflowRun {
        name: "CI".into(),
        run_number: 1,
        state,
        branch: "main".into(),
        short_sha: "abc1234".into(),
        event: "push".into(),
        created_at: now,
        updated_at: now,
        html_url: "https://example.com".into(),
    }
}

#[test]
fn navigation_wraps_over_visible() {
    let mut s = app(vec![project("a", "a"), project("b", "b")]);
    assert_eq!(s.selected, 0);
    s.update(Action::Up);
    assert_eq!(s.selected, 1);
    s.update(Action::Down);
    assert_eq!(s.selected, 0);
}

#[test]
fn selection_is_stable_at_top_across_resort() {
    let mut s = app(vec![project("o", "ok"), project("o", "bad")]);
    assert_eq!(s.selected, 0);
    s.update(Action::Refresh);
    s.update(Action::FetchCompleted {
        index: 0,
        result: Ok(vec![run(RunState::Success)]),
    });
    s.update(Action::FetchCompleted {
        index: 1,
        result: Ok(vec![run(RunState::Failed)]),
    });
    assert_eq!(s.selected, 0);
    assert_eq!(s.selected_status().unwrap().project.repo, "bad");
}

#[test]
fn refresh_marks_all_loading_and_counts_inflight() {
    let mut s = app(vec![project("a", "a"), project("b", "b")]);
    let cmd = s.update(Action::Refresh);
    match cmd {
        Command::Fetch(targets) => assert_eq!(targets.len(), 2),
        other => panic!("expected Fetch, got {other:?}"),
    }
    assert_eq!(s.inflight, 2);
    assert!(s.is_loading());
}

#[test]
fn poll_due_only_fetches_due_projects() {
    let mut s = app(vec![project("a", "a"), project("b", "b")]);
    match s.poll_due() {
        Command::Fetch(t) => assert_eq!(t.len(), 2),
        other => panic!("expected Fetch, got {other:?}"),
    }
    assert_eq!(s.poll_due(), Command::Nothing);
}

#[test]
fn manual_refresh_during_poll_does_not_double_fetch() {
    let mut s = app(vec![project("a", "a"), project("b", "b")]);
    let cmd = s.poll_due();
    assert!(matches!(cmd, Command::Fetch(_)));
    assert_eq!(s.inflight, 2);
    let cmd = s.force_refresh_visible();
    assert_eq!(cmd, Command::Nothing);
    assert_eq!(s.inflight, 2);
}

#[test]
fn rate_limit_pauses_polling() {
    let mut s = app(vec![project("a", "a")]);
    s.update(Action::Refresh);
    s.update(Action::FetchCompleted {
        index: 0,
        result: Err(ProviderError::RateLimited("slow down".into())),
    });
    assert!(s.is_rate_limited(s.now()));
    assert_eq!(s.poll_due(), Command::Nothing);
}

#[test]
fn rate_limit_cooldown_expires_after_configured_window() {
    let clock = FixedClock::new(Utc::now().timestamp());
    let intervals = PollIntervals::default();
    let cooldown = intervals.rate_limit_cooldown as i64;
    let mut s = AppState::with_config(vec![project("a", "a")], intervals, clock);
    s.update(Action::Refresh);
    s.update(Action::FetchCompleted {
        index: 0,
        result: Err(ProviderError::RateLimited("slow".into())),
    });
    assert!(s.is_rate_limited(s.now()));
    s.clock.advance(cooldown - 1);
    assert!(s.is_rate_limited(s.now()));
    s.clock.advance(2);
    assert!(!s.is_rate_limited(s.now()));
}

#[test]
fn failed_fetch_increments_backoff_counter() {
    let mut s = app(vec![project("a", "a")]);
    s.update(Action::Refresh);
    s.update(Action::FetchCompleted {
        index: 0,
        result: Err(ProviderError::Other("boom".into())),
    });
    assert_eq!(s.projects[0].consecutive_errors, 1);
}

#[test]
fn successful_fetch_marks_cache_dirty_and_persists() {
    let mut s = app(vec![project("a", "a")]);
    s.update(Action::Refresh);
    let cmd = s.update(Action::FetchCompleted {
        index: 0,
        result: Ok(vec![run(RunState::Success)]),
    });
    assert_eq!(cmd, Command::PersistCache);
}

#[test]
fn delete_repo_needs_confirmation_then_persists() {
    let mut s = app(vec![project("acme", "api"), project("acme", "web")]);
    s.update(Action::RequestDeleteRepo);
    assert!(s.pending_delete.is_some());
    assert_eq!(s.projects.len(), 2);
    let cmd = s.update(Action::ConfirmDelete);
    assert_eq!(cmd, Command::PersistProjects);
    assert_eq!(s.projects.len(), 1);
    assert!(s.pending_delete.is_none());
}

#[test]
fn cancel_delete_keeps_everything() {
    let mut s = app(vec![project("acme", "api")]);
    s.update(Action::RequestDeleteRepo);
    let cmd = s.update(Action::CancelDelete);
    assert_eq!(cmd, Command::Nothing);
    assert_eq!(s.projects.len(), 1);
    assert!(s.pending_delete.is_none());
}

#[test]
fn delete_owner_removes_whole_company() {
    let mut s = app(vec![
        project("acme", "api"),
        project("acme", "web"),
        project("other", "x"),
    ]);
    s.update(Action::RequestDeleteOwner);
    match &s.pending_delete {
        Some(PendingDelete::Owner { owner, count }) => {
            assert_eq!(owner, "acme");
            assert_eq!(*count, 2);
        }
        _ => panic!("expected owner delete"),
    }
    let cmd = s.update(Action::ConfirmDelete);
    assert_eq!(cmd, Command::PersistProjects);
    assert_eq!(s.projects.len(), 1);
    assert_eq!(s.projects[0].project.owner, "other");
}

#[test]
fn escape_cancels_pending_delete_first() {
    let mut s = app(vec![project("acme", "api")]);
    s.update(Action::RequestDeleteRepo);
    let cmd = s.update(Action::Escape);
    assert_eq!(cmd, Command::Nothing);
    assert!(s.pending_delete.is_none());
    assert!(s.running);
}

#[test]
fn search_filters_visible_list() {
    let mut s = app(vec![project("acme", "api"), project("other", "web")]);
    s.update(Action::EnterSearch);
    for c in "acme".chars() {
        s.update(Action::SearchInput(c));
    }
    assert_eq!(s.visible_count(), 1);
    assert_eq!(s.selected_status().unwrap().project.owner, "acme");
    s.update(Action::SearchBackspace);
    assert_eq!(s.visible_count(), 1);
}

#[test]
fn owner_filter_limits_to_company() {
    let mut s = app(vec![
        project("acme", "api"),
        project("acme", "web"),
        project("other", "x"),
    ]);
    s.filter.owner = Some("acme".into());
    s.clamp_selection();
    assert_eq!(s.visible_count(), 2);
}

#[test]
fn escape_clears_filter_before_quitting() {
    let mut s = app(vec![project("acme", "api")]);
    s.filter.owner = Some("acme".into());
    let cmd = s.update(Action::Escape);
    assert_eq!(cmd, Command::Nothing);
    assert!(s.filter.owner.is_none());
    assert!(s.running);
    let cmd = s.update(Action::Escape);
    assert_eq!(cmd, Command::Quit);
}

#[test]
fn open_in_browser_yields_url_for_loaded_project() {
    let mut s = app(vec![project("a", "a")]);
    s.update(Action::Refresh);
    s.update(Action::FetchCompleted {
        index: 0,
        result: Ok(vec![run(RunState::Success)]),
    });
    let cmd = s.update(Action::OpenInBrowser);
    assert_eq!(cmd, Command::OpenUrl("https://example.com".into()));
}

#[test]
fn toast_decays_on_tick() {
    let mut s = app(vec![project("a", "a")]);
    s.toast = Some(Toast::info("hi"));
    for _ in 0..Toast::DEFAULT_TTL {
        s.update(Action::Tick);
    }
    assert!(s.toast.is_none());
}

#[test]
fn quit_stops_running() {
    let mut s = app(vec![]);
    let cmd = s.update(Action::Quit);
    assert_eq!(cmd, Command::Quit);
    assert!(!s.running);
}

use github_status::adapters::file_cache::{CachedRecord, RunRecord};
use github_status::adapters::{FileCacheStore, FileProjectStore};
use github_status::domain::{RunState, WorkflowRun};
use github_status::ports::CachedProject;

fn run(state: RunState) -> WorkflowRun {
    WorkflowRun {
        name: "CI".into(),
        run_number: 7,
        state,
        branch: "main".into(),
        short_sha: "abc1234".into(),
        event: "push".into(),
        created_at: 100,
        updated_at: 160,
        html_url: "https://example.com".into(),
    }
}

#[test]
fn cached_runs_read_back_unchanged() {
    for state in [RunState::Failed, RunState::ActionRequired, RunState::Unknown, RunState::Success] {
        let r = run(state);
        let rec = RunRecord::from_run(r.clone());
        assert_eq!(rec.status, state.persist_key());
        assert!(rec.conclusion.is_none());
        assert_eq!(WorkflowRun::from(rec), r);
    }
}

#[test]
fn raw_api_status_in_older_cache_files_is_interpreted() {
    let rec = RunRecord {
        name: "CI".into(),
        run_number: 1,
        status: "completed".into(),
        conclusion: Some("success".into()),
        branch: "main".into(),
        short_sha: "a".into(),
        event: "push".into(),
        created_at: 0,
        updated_at: 0,
        html_url: "u".into(),
    };
    assert_eq!(WorkflowRun::from(rec).state, RunState::Success);
}

#[test]
fn snapshot_record_roundtrips() {
    let c = CachedProject {
        slug: "o/r".into(),
        runs: vec![run(RunState::Failed), run(RunState::Queued)],
        fetched_at: 99,
    };
    let back = CachedRecord::from_cached(c.clone()).into_cached();
    assert_eq!(back.slug, "o/r");
    assert_eq!(back.fetched_at, 99);
    assert_eq!(back.runs, c.runs);
}

#[test]
fn stores_remember_their_paths() {
    assert_eq!(FileCacheStore::new("/tmp/c.json".into()).path(), "/tmp/c.json");
    assert_eq!(FileProjectStore::new("/tmp/cfg.toml".into()).path(), "/tmp/cfg.toml");
    if let Some(p) = FileCacheStore::default_path() {
        assert!(p.ends_with("cache.json") && p.len() > "cache.json".len());
    }
}


use github_status::adapters::github::{
    classify_denied, map_error, map_repo, map_run, projects_from_repos, usable_token, user_repos_route, ApiFailure,
    ApiRepo, ApiRun,
};
use github_status::domain::RunState;
use github_status::ports::ProviderError;

fn api_run(sha: &str) -> ApiRun {
    ApiRun {
        name: "CI".into(),
        run_number: 42,
        status: "completed".into(),
        conclusion: Some("failure".into()),
        head_branch: "main".into(),
        head_sha: sha.into(),
        event: "push".into(),
        created_at: 10,
        updated_at: 70,
        html_url: "https://github.com/o/r/actions/runs/1".into(),
    }
}

#[test]
fn run_mapping_shortens_sha_and_derives_state() {
    let r = map_run(api_run("0123456789abcdef"));
    assert_eq!(r.short_sha, "0123456");
    assert_eq!(r.state, RunState::Failed);
    assert_eq!(r.branch, "main");
    assert_eq!(r.run_number, 42);
    assert_eq!(r.duration(), 60);
    let short = map_run(api_run("abc"));
    assert_eq!(short.short_sha, "abc");
}

#[test]
fn repos_without_owner_or_archived_are_skipped() {
    let repos = vec![
        ApiRepo { owner: Some("o".into()), name: "live".into(), archived: Some(false) },
        ApiRepo { owner: Some("o".into()), name: "old".into(), archived: Some(true) },
        ApiRepo { owner: None, name: "orphan".into(), archived: None },
        ApiRepo { owner: Some("o".into()), name: "unknown".into(), archived: None },
    ];
    let ps = projects_from_repos(repos);
    let slugs: Vec<String> = ps.iter().map(|p| p.slug()).collect();
    assert_eq!(slugs, vec!["o/live", "o/unknown"]);
    assert!(map_repo(ApiRepo { owner: None, name: "x".into(), archived: None }).is_none());
}

#[test]
fn errors_are_classified_by_status() {
    let rl = map_error(ApiFailure::GitHub { status: 403, message: "API Rate Limit exceeded".into() });
    assert_eq!(rl, ProviderError::RateLimited("API Rate Limit exceeded".into()));
    let auth = map_error(ApiFailure::GitHub { status: 401, message: "Bad credentials".into() });
    assert_eq!(auth, ProviderError::Auth("Bad credentials".into()));
    let nf = map_error(ApiFailure::GitHub { status: 404, message: "Not Found".into() });
    assert_eq!(nf, ProviderError::NotFound("Not Found".into()));
    let many = map_error(ApiFailure::GitHub { status: 429, message: "slow".into() });
    assert!(many.is_rate_limited());
    let other = map_error(ApiFailure::GitHub { status: 500, message: "boom".into() });
    assert_eq!(other, ProviderError::Other("HTTP 500: boom".into()));
    assert_eq!(other.message(), "provider error: HTTP 500: boom");
    let io = map_error(ApiFailure::Other("timeout".into()));
    assert_eq!(io, ProviderError::Other("timeout".into()));
}

#[test]
fn blank_tokens_are_not_used() {
    assert_eq!(usable_token(Some("  ".into())), None);
    assert_eq!(usable_token(Some("ghp_x".into())), Some("ghp_x".to_string()));
    assert_eq!(usable_token(None), None);
}

#[test]
fn user_route_lists_recently_pushed_repos() {
    assert_eq!(user_repos_route("octo"), "/users/octo/repos?per_page=100&sort=pushed");
}

#[test]
fn denied_answers_split_on_rate_limit_mention() {
    assert_eq!(
        classify_denied("API Rate Limit exceeded".into(), "api rate limit exceeded"),
        ProviderError::RateLimited("API Rate Limit exceeded".into()),
    );
    assert_eq!(
        classify_denied("Rate Limit".into(), "Rate Limit"),
        ProviderError::Auth("Rate Limit".into()),
    );
    assert_eq!(
        classify_denied("Bad credentials".into(), "bad credentials"),
        ProviderError::Auth("Bad credentials".into()),
    );
}

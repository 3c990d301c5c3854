use github_status::adapters::local_git::{is_hidden, origin_url, parse_github_remote, project_from_git_config};
use github_status::adapters::LocalGitScanner;
use github_status::domain::Project;

#[test]
fn parses_https_remote() {
    let p = parse_github_remote("https://github.com/rust-lang/rust.git").unwrap();
    assert_eq!(p.slug(), "rust-lang/rust");
}

#[test]
fn parses_ssh_remote() {
    let p = parse_github_remote("git@github.com:ratatui/ratatui.git").unwrap();
    assert_eq!(p.slug(), "ratatui/ratatui");
}

#[test]
fn ignores_non_github_remote() {
    assert!(parse_github_remote("https://gitlab.com/a/b.git").is_none());
}

#[test]
fn extracts_origin_url_from_config() {
    let cfg = r#"
[core]
    repositoryformatversion = 0
[remote "origin"]
    url = git@github.com:owner/repo.git
    fetch = +refs/heads/*:refs/remotes/origin/*
"#;
    assert_eq!(
        origin_url(cfg).as_deref(),
        Some("git@github.com:owner/repo.git")
    );
}

#[test]
fn parses_ssh_url_scheme_remote() {
    let p = parse_github_remote("  ssh://git@github.com/owner/name.git/ ").unwrap();
    assert_eq!(p.slug(), "owner/name");
    assert!(p.branch.is_none());
}

#[test]
fn remote_with_too_few_segments_is_rejected() {
    assert!(parse_github_remote("https://github.com/justowner").is_none());
    assert!(parse_github_remote("git@github.com:").is_none());
}

#[test]
fn origin_url_ignores_other_remotes_and_crlf() {
    let cfg = "[remote \"upstream\"]\r\n\turl = https://github.com/up/stream\r\n[remote \"origin\"]\r\n\turl=https://github.com/me/mine.git\r\n";
    assert_eq!(origin_url(cfg).as_deref(), Some("https://github.com/me/mine.git"));
    assert_eq!(origin_url("[core]\n  bare = false\n"), None);
}

#[test]
fn git_config_yields_project_only_for_github_origin() {
    let cfg = "[remote \"origin\"]\n    url = https://github.com/me/myproj.git\n";
    assert_eq!(project_from_git_config(cfg).unwrap().slug(), "me/myproj");
    let other = "[remote \"origin\"]\n    url = https://example.com/me/myproj.git\n";
    assert!(project_from_git_config(other).is_none());
}

#[test]
fn scan_sorts_and_keeps_first_of_each_slug() {
    let mut labelled = Project::new("b", "two");
    labelled.label = Some("first".to_string());
    let mut dup = Project::new("b", "two");
    dup.label = Some("second".to_string());
    let found = vec![labelled, Project::new("a", "one"), dup, Project::new("a", "one")];
    let out = LocalGitScanner::default().scan(found);
    let slugs: Vec<String> = out.iter().map(|p| p.slug()).collect();
    assert_eq!(slugs, vec!["a/one", "b/two"]);
    assert_eq!(out[1].label.as_deref(), Some("first"));
}

#[test]
fn scanner_depth_defaults_to_one() {
    assert_eq!(LocalGitScanner::default().depth(), 1);
    assert_eq!(LocalGitScanner::with_depth(3).depth(), 3);
}

#[test]
fn hidden_and_build_dirs_are_skipped() {
    assert!(is_hidden(".git"));
    assert!(is_hidden("node_modules"));
    assert!(is_hidden("target"));
    assert!(!is_hidden("src"));
    assert!(!is_hidden(""));
}

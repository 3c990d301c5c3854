use github_status::config::{Config, ConfigError, ProjectConfig, Settings, TokenSource};
use github_status::domain::Project;

#[test]
fn add_project_dedupes_case_insensitively() {
    let mut cfg = Config::default();
    assert!(cfg.add_project(Project::new("Rust-Lang", "Rust")));
    assert!(!cfg.add_project(Project::new("rust-lang", "rust")));
    assert_eq!(cfg.projects.len(), 1);
}

#[test]
fn remove_project_reports_hit() {
    let mut cfg = Config::default();
    cfg.add_project(Project::new("a", "b"));
    assert!(cfg.remove_project("A", "B"));
    assert!(!cfg.remove_project("a", "b"));
    assert!(cfg.projects.is_empty());
}

#[test]
fn env_token_overrides_config() {
    let mut cfg = Config::default();
    cfg.settings.token = Some("from-file".into());
    assert_eq!(
        cfg.resolve_token(Some("from-env"), None, None).as_deref(),
        Some("from-env")
    );
    // With no env vars set, the config file token wins over the gh CLI.
    let (tok, src) = cfg.resolve_token_source(None, None, Some("from-cli")).unwrap();
    assert_eq!(tok, "from-file");
    assert_eq!(src, TokenSource::ConfigFile);
}

#[test]
fn token_precedence_skips_blank_values_and_trims_cli_output() {
    let cfg = Config::default();
    let (tok, src) = cfg
        .resolve_token_source(Some("  "), Some("gh-env"), Some("cli"))
        .unwrap();
    assert_eq!(tok, "gh-env");
    assert_eq!(src, TokenSource::EnvGhToken);
    let (tok, src) = cfg.resolve_token_source(None, None, Some("  tok\n")).unwrap();
    assert_eq!(tok, "tok");
    assert_eq!(src, TokenSource::GhCli);
    assert!(cfg.resolve_token_source(None, Some(""), Some(" ")).is_none());
    assert_eq!(
        TokenSource::GhCli.describe(),
        "GitHub CLI (`gh auth token`)"
    );
}

#[test]
fn remove_owner_drops_the_whole_company() {
    let mut cfg = Config::default();
    cfg.add_project(Project::new("Acme", "api"));
    cfg.add_project(Project::new("acme", "web"));
    cfg.add_project(Project::new("other", "x"));
    assert_eq!(cfg.remove_owner(" ACME "), 2);
    let left = cfg.projects();
    assert_eq!(left.len(), 1);
    assert_eq!(left[0].slug(), "other/x");
    assert_eq!(cfg.remove_owner("nobody"), 0);
}

#[test]
fn set_projects_replaces_the_list_in_order() {
    let mut cfg = Config::default();
    cfg.add_project(Project::new("old", "one"));
    let mut branchy = Project::new("c", "d");
    branchy.branch = Some("main".into());
    cfg.set_projects(vec![Project::new("a", "b"), branchy]);
    let ps = cfg.projects();
    assert_eq!(ps.len(), 2);
    assert_eq!(ps[0].slug(), "a/b");
    assert_eq!(ps[1].branch.as_deref(), Some("main"));
}

#[test]
fn poll_intervals_clamp_zero_to_one_second() {
    let mut s = Settings::default();
    assert_eq!(s.runs_per_project, 5);
    assert_eq!(s.refresh_interval_secs, 60);
    s.poll_active_secs = 0;
    let p = s.poll_intervals();
    assert_eq!(p.active, 1);
    assert_eq!(p.recent, 45);
    assert_eq!(p.backoff_cap, 900);
    assert_eq!(p.rate_limit_cooldown, 60);
}

#[test]
fn missing_config_loads_as_empty_default() {
    let (cfg, path) = Config::load_or_default(
        "/tmp/x/config.toml".to_string(),
        Err(ConfigError::NotFound("/tmp/x/config.toml".into())),
    )
    .unwrap();
    assert!(cfg.projects.is_empty());
    assert_eq!(path, "/tmp/x/config.toml");
    let err = Config::load_or_default(
        "p".to_string(),
        Err(ConfigError::Parse {
            path: "p".into(),
            message: "bad".into(),
        }),
    )
    .unwrap_err();
    assert_eq!(err.message(), "failed to parse config at p: bad");
}

#[test]
fn explicit_config_path_wins() {
    assert_eq!(Config::resolve_path(Some("/etc/ghs.toml")).unwrap(), "/etc/ghs.toml");
}

#[test]
fn saved_and_scaffolded_text_carry_the_header() {
    let t = Config::file_text("x = 1\n");
    assert!(t.starts_with("# github-status (ghs) configuration\n"));
    assert!(t.ends_with("\n\nx = 1\n"));
    let s = Config::scaffold_text("runs_per_project = 5\n");
    assert!(s.contains("\n\n[settings]\nruns_per_project = 5\n\n# Add your repositories below"));
    assert!(!s.contains("\n[[project]]"));
}

#[test]
fn project_config_converts_both_ways() {
    let mut p = Project::new("o", "r");
    p.label = Some("L".into());
    let c = ProjectConfig::from(p.clone());
    assert_eq!(c.owner, "o");
    assert_eq!(c.label.as_deref(), Some("L"));
    let back = Project::from(c);
    assert_eq!(back, p);
}

#[test]
fn default_config_path_names_the_config_file() {
    match Config::default_path() {
        Ok(p) => assert!(p.ends_with("config.toml") && p.len() > "config.toml".len()),
        Err(e) => assert!(matches!(e, ConfigError::NoConfigDir)),
    }
}

#[test]
fn platform_directories_belong_to_this_application() {
    assert_eq!(github_status::adapters::dirs::app_identity(), ("dev", "robert", "github-status"));
}

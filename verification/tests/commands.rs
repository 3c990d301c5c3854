use github_status::cli::{Cli, CommandKind, ImportArgs};
use github_status::commands::{
    add_specs, add_summary, check_report, config_notes, found_report, gh_notes, import_projects,
    import_source, import_summary, latest_state, note_line, plural, probe_notes, remove_specs,
    remove_summary, require_token_for_remote, status_line, token_notes, ImportSource, NoteKind,
    ProbeOutcome,
};
use github_status::config::{Config, TokenSource};
use github_status::domain::{Project, RunState, WorkflowRun};
use github_status::ports::{DiscoverySource, ProviderError};

fn args() -> ImportArgs {
    ImportArgs { local: None, depth: 1, me: false, user: None, org: None, dry_run: false }
}

#[test]
fn default_command_is_the_tui() {
    let cli = Cli { config: None, command: None };
    assert!(matches!(cli.command(), CommandKind::Tui));
    let cli = Cli { config: Some("x".into()), command: Some(CommandKind::Init { force: true }) };
    assert!(matches!(cli.command(), CommandKind::Init { force: true }));
}

#[test]
fn remote_imports_need_a_token() {
    let mut a = args();
    assert!(require_token_for_remote(&a, false).is_ok());
    a.org = Some("acme".into());
    let e = require_token_for_remote(&a, false).unwrap_err();
    assert!(e.starts_with("this import source needs a GitHub token."));
    assert!(require_token_for_remote(&a, true).is_ok());
}

#[test]
fn import_source_precedence() {
    let mut a = args();
    assert!(matches!(import_source(&a), ImportSource::CurrentDir));
    a.local = Some("/src".into());
    assert!(matches!(import_source(&a), ImportSource::Local(ref d) if d == "/src"));
    a.org = Some("acme".into());
    assert!(matches!(import_source(&a), ImportSource::Remote(DiscoverySource::Org(ref o)) if o == "acme"));
    a.user = Some("me".into());
    assert!(matches!(import_source(&a), ImportSource::Remote(DiscoverySource::User(_))));
    a.me = true;
    assert!(matches!(import_source(&a), ImportSource::Remote(DiscoverySource::AuthenticatedUser)));
}

#[test]
fn plural_suffix() {
    assert_eq!(plural(1), "y");
    assert_eq!(plural(0), "ies");
    assert_eq!(plural(2), "ies");
}

#[test]
fn add_reports_each_spec() {
    let mut cfg = Config::default();
    cfg.add_project(Project::new("a", "b"));
    let specs = vec!["A/B".to_string(), "c/d@main".to_string(), "bad".to_string()];
    let (lines, added) = add_specs(&mut cfg, &specs);
    assert_eq!(added, 1);
    assert_eq!(lines, vec![
        "· A/B already tracked".to_string(),
        "✓ added c/d".to_string(),
        "✗ skipped 'bad': expected 'owner/repo' (optionally '@branch'), got: bad".to_string(),
    ]);
    assert_eq!(cfg.projects.len(), 2);
    assert_eq!(cfg.projects[1].branch.as_deref(), Some("main"));
    assert_eq!(add_summary("/c.toml", 1), "\nSaved /c.toml (1 new). Run `ghs` to view.");
    assert_eq!(add_summary("/c.toml", 0), "\nNothing to add.");
}

#[test]
fn remove_reports_each_spec() {
    let mut cfg = Config::default();
    cfg.add_project(Project::new("a", "b"));
    let specs = vec!["https://github.com/A/b".to_string(), "x/y".to_string(), " ".to_string()];
    let (lines, removed) = remove_specs(&mut cfg, &specs);
    assert_eq!(removed, 1);
    assert_eq!(lines, vec![
        "✓ removed A/b".to_string(),
        "· x/y was not tracked".to_string(),
        "✗ skipped ' ': empty project spec".to_string(),
    ]);
    assert!(cfg.projects.is_empty());
    assert_eq!(remove_summary("/c.toml", 1), "\nSaved /c.toml (1 removed).");
    assert_eq!(remove_summary("/c.toml", 0), "\nNothing to remove.");
}

#[test]
fn import_adds_only_new_projects() {
    let mut cfg = Config::default();
    cfg.add_project(Project::new("o", "a"));
    let found = vec![Project::new("o", "a"), Project::new("o", "b")];
    let report = found_report(&found);
    assert_eq!(report, vec![
        "Found 2 repositories:".to_string(),
        "  • o/a".to_string(),
        "  • o/b".to_string(),
    ]);
    assert_eq!(found_report(&vec![Project::new("x", "y")])[0], "Found 1 repository:");
    assert_eq!(import_projects(&mut cfg, found), 1);
    assert_eq!(cfg.projects.len(), 2);
    assert_eq!(import_summary("/c", 1), vec![
        "\n✓ Imported 1 new repo(s) into /c.".to_string(),
        "Run `ghs` to view them.".to_string(),
    ]);
    assert_eq!(import_summary("/c", 0), vec!["\nAll discovered repos were already tracked.".to_string()]);
}

#[test]
fn list_lines_and_check_report() {
    let run = WorkflowRun {
        name: "CI".into(),
        run_number: 1,
        state: RunState::Failed,
        branch: "main".into(),
        short_sha: "abc".into(),
        event: "push".into(),
        created_at: 0,
        updated_at: 0,
        html_url: "u".into(),
    };
    assert_eq!(latest_state(Ok(vec![run])), Ok(Some(RunState::Failed)));
    assert_eq!(latest_state(Ok(vec![])), Ok(None));
    assert_eq!(
        latest_state(Err(ProviderError::NotFound("x".into()))),
        Err("not found: x".to_string())
    );
    assert_eq!(
        status_line("o/r", &Ok(Some(RunState::Success))),
        format!("✓ {:<28} Success", "o/r")
    );
    assert_eq!(status_line("o/r", &Ok(None)), format!("· {:<28} no runs", "o/r"));
    assert_eq!(status_line("o/r", &Err("boom".into())), format!("✗ {:<28} error: boom", "o/r"));

    let green = vec![("a/b".to_string(), Ok(Some(RunState::Success))), ("c/d".to_string(), Ok(None))];
    let (lines, err) = check_report(&green);
    assert_eq!(lines, vec!["✓ All 2 project(s) green.".to_string()]);
    assert!(err.is_none());
    let red = vec![
        ("a/b".to_string(), Ok(Some(RunState::TimedOut))),
        ("c/d".to_string(), Err("x".to_string())),
        ("e/f".to_string(), Ok(Some(RunState::Failed))),
    ];
    let (lines, err) = check_report(&red);
    assert_eq!(lines, vec!["✗ a/b: Timed out".to_string(), "✗ e/f: Failed".to_string()]);
    assert_eq!(err.as_deref(), Some("2 project(s) failing"));
}

#[test]
fn doctor_notes() {
    let n = config_notes(Some(1), "/c.toml");
    assert_eq!(n.len(), 1);
    assert_eq!(n[0].kind, NoteKind::Good);
    assert_eq!(n[0].text, "config found at /c.toml (1 project)");
    assert_eq!(config_notes(Some(3), "/c")[0].text, "config found at /c (3 projects)");
    let missing = config_notes(None, "/c");
    assert_eq!(missing[0].kind, NoteKind::Warn);
    assert_eq!(missing[1].kind, NoteKind::Hint);
    assert_eq!(gh_notes(false)[0].kind, NoteKind::Info);
    assert_eq!(
        token_notes(Some(TokenSource::EnvGhToken))[0].text,
        "token detected via GH_TOKEN environment variable"
    );
    assert_eq!(token_notes(None).len(), 3);
    let probe = probe_notes(&ProbeOutcome::Failed { slug: "o/r".into(), message: "nope".into() });
    assert_eq!(probe[0].text, "API probe failed for o/r: nope");
    assert_eq!(note_line(&probe[0]), "  \u{1b}[33m!\u{1b}[0m API probe failed for o/r: nope");
    assert_eq!(note_line(&probe[1]), "      \u{1b}[2m↳ check your token scopes and network connection\u{1b}[0m");
}

#[test]
fn removing_a_bare_owner_drops_the_whole_owner() {
    let mut cfg = Config::default();
    cfg.add_project(Project::new("Acme", "api"));
    cfg.add_project(Project::new("acme", "web"));
    cfg.add_project(Project::new("other", "x"));
    let specs = vec![" acme ".to_string(), "nobody".to_string()];
    let (lines, removed) = remove_specs(&mut cfg, &specs);
    assert_eq!(removed, 2);
    assert_eq!(lines, vec![
        "✓ removed 2 project(s) of acme".to_string(),
        "· no projects of nobody were tracked".to_string(),
    ]);
    assert_eq!(cfg.projects.len(), 1);
    assert_eq!(cfg.projects[0].owner, "other");
    assert_eq!(remove_summary("/c.toml", removed), "\nSaved /c.toml (2 removed).");
}

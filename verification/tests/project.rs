use github_status::domain::{ParseProjectError, Project};

#[test]
fn slug_is_owner_repo() {
    assert_eq!(Project::new("a", "b").slug(), "a/b");
}

#[test]
fn display_name_prefers_label() {
    let mut p = Project::new("a", "b");
    assert_eq!(p.display_name(), "a/b");
    p.label = Some("My API".into());
    assert_eq!(p.display_name(), "My API");
}

#[test]
fn parse_owner_repo() {
    let p = Project::parse("rust-lang/rust").unwrap();
    assert_eq!(p.owner, "rust-lang");
    assert_eq!(p.repo, "rust");
    assert_eq!(p.branch, None);
}

#[test]
fn parse_with_branch() {
    let p = Project::parse("rust-lang/rust@master").unwrap();
    assert_eq!(p.slug(), "rust-lang/rust");
    assert_eq!(p.branch.as_deref(), Some("master"));
}

#[test]
fn parse_github_url() {
    let p = Project::parse("https://github.com/ratatui/ratatui.git").unwrap();
    assert_eq!(p.slug(), "ratatui/ratatui");
}

#[test]
fn parse_rejects_malformed() {
    assert!(Project::parse("").is_err());
    assert!(Project::parse("justone").is_err());
    assert!(Project::parse("a/b/c").is_err());
}

#[test]
fn parse_errors_say_what_was_wrong() {
    assert_eq!(Project::parse("   ").unwrap_err(), ParseProjectError::Empty);
    let e = Project::parse(" a/b/c ").unwrap_err();
    assert_eq!(e, ParseProjectError::Malformed("a/b/c".into()));
    assert_eq!(
        e.message(),
        "expected 'owner/repo' (optionally '@branch'), got: a/b/c"
    );
    assert_eq!(ParseProjectError::Empty.message(), "empty project spec");
}

#[test]
fn parse_ignores_a_blank_branch_and_trims_one() {
    let p = Project::parse("o/r@  ").unwrap();
    assert_eq!(p.repo, "r@");
    let q = Project::parse("www.github.com/o/r@ dev ").unwrap();
    assert_eq!(q.slug(), "o/r");
    assert_eq!(q.branch.as_deref(), Some("dev"));
}

#[test]
fn matches_query_is_case_insensitive_substring() {
    let p = Project::new("Acme", "web-api");
    assert!(p.matches_query(""));
    assert!(p.matches_query("acme"));
    assert!(p.matches_query("API"));
    assert!(p.matches_query("web"));
    assert!(!p.matches_query("zzz"));
}

#[test]
fn matches_query_includes_label() {
    let mut p = Project::new("o", "r");
    p.label = Some("Billing Service".into());
    assert!(p.matches_query("billing"));
}

#[test]
fn belongs_to_owner_case_insensitive() {
    let p = Project::new("Acme", "r");
    assert!(p.belongs_to("acme"));
    assert!(!p.belongs_to("other"));
}

#[test]
fn parse_gives_back_the_slug_with_spaces_and_branch() {
    let p = Project::new("rust-lang", "rust");
    let q = Project::parse(&p.slug()).unwrap();
    assert_eq!(q.slug(), p.slug());
    assert_eq!(q.branch, None);
    let b = Project::parse("  rust-lang/rust@master ").unwrap();
    assert_eq!(b.owner, "rust-lang");
    assert_eq!(b.repo, "rust");
    assert_eq!(b.branch.as_deref(), Some("master"));
}

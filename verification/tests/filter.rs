use github_status::app::Filter;
use github_status::domain::Project;

#[test]
fn empty_filter_passes_everything() {
    let f = Filter::default();
    assert!(f.passes(&Project::new("acme", "api")));
    assert!(!f.is_active());
}

#[test]
fn query_matches_substring_case_insensitively() {
    let f = Filter {
        query: "API".into(),
        owner: None,
    };
    assert!(f.passes(&Project::new("acme", "web-api")));
    assert!(!f.passes(&Project::new("acme", "web")));
    assert!(f.is_active());
}

#[test]
fn owner_restricts_to_company() {
    let f = Filter {
        query: String::new(),
        owner: Some("acme".into()),
    };
    assert!(f.passes(&Project::new("Acme", "x")));
    assert!(!f.passes(&Project::new("other", "x")));
}

#[test]
fn query_and_owner_combine() {
    let f = Filter {
        query: "api".into(),
        owner: Some("acme".into()),
    };
    assert!(f.passes(&Project::new("acme", "api")));
    assert!(!f.passes(&Project::new("acme", "web")));
    assert!(!f.passes(&Project::new("other", "api")));
}

#[test]
fn clear_resets() {
    let mut f = Filter {
        query: "x".into(),
        owner: Some("o".into()),
    };
    f.clear();
    assert!(!f.is_active());
}

#[test]
fn blank_query_is_inactive_and_trimmed_text_is_reported() {
    let f = Filter {
        query: "   ".into(),
        owner: None,
    };
    assert!(!f.is_active());
    assert_eq!(f.query_text(), None);
    let g = Filter {
        query: "  api ".into(),
        owner: None,
    };
    assert_eq!(g.query_text(), Some("api"));
}

use github_status::adapters::FixedClock;
use github_status::app::{AppState, PendingDelete, Toast, ToastKind};
use github_status::domain::{LoadState, PollIntervals, Project, ProjectStatus, RunState, WorkflowRun};
use github_status::tui::bars::{confirm_lines, header_spans, help_lines, normal_hints, search_prompt, toast_rect, toast_text};
use github_status::tui::panes::{detail_lines, detail_title, empty_no_matches, list_title, row, run_block};
use github_status::tui::layout::centered;
use github_status::tui::spans::{pad, pad_name, truncate, Rect, Span};
use github_status::tui::theme::{Rgb, Theme};

fn text(spans: &[Span]) -> String {
    spans.iter().map(|s| s.text.as_str()).collect()
}

fn run(state: RunState) -> WorkflowRun {
    WorkflowRun {
        name: "CI".into(),
        run_number: 12,
        state,
        branch: "main".into(),
        short_sha: "abc1234".into(),
        event: "push".into(),
        created_at: 1_000,
        updated_at: 1_072,
        html_url: "u".into(),
    }
}

#[test]
fn names_are_cut_and_padded_to_the_column() {
    assert_eq!(truncate("abcdef", 4), "abc…");
    assert_eq!(truncate("abc", 4), "abc");
    assert_eq!(truncate("abc", 0), "…");
    assert_eq!(pad_name("ab", 5), "ab   ");
    assert_eq!(pad_name("abcdefgh", 5), "abcd…");
}

#[test]
fn rows_show_state_name_and_details() {
    let theme = Theme::default();
    let mut p = ProjectStatus::new(Project::new("o", "r"));
    let idle = row(&p, &theme, 0, 0);
    assert_eq!(text(&idle), format!("  · {:<26}idle", "o/r"));
    p.load = LoadState::Loaded { runs: vec![run(RunState::Failed)], fetched_at: 1_100 };
    let loaded = row(&p, &theme, 0, 1_072 + 180);
    assert_eq!(text(&loaded), format!(" ✗ {:<26}Failed  ⎇ main  · 3m ago", "o/r"));
    assert_eq!(loaded[0].style.fg, Some(theme.failure));
    p.load = LoadState::Loading;
    assert_eq!(text(&row(&p, &theme, 11, 0)), format!(" ⠙ {:<26}loading…", "o/r"));
    p.load = LoadState::Failed { message: "x".repeat(50) };
    let failed = row(&p, &theme, 0, 0);
    assert_eq!(failed[2].text.chars().count(), 40);
}

#[test]
fn detail_pane_lists_runs() {
    let theme = Theme::midnight();
    let mut p = ProjectStatus::new(Project::new("o", "r"));
    assert_eq!(detail_title(Some(&p)), " o/r ");
    assert_eq!(detail_title(None), " Details ");
    assert_eq!(text(&detail_lines(&p, &theme, 0)[0]), "Press 'r' to load this project.");
    p.load = LoadState::Loaded { runs: vec![run(RunState::Success), run(RunState::Queued)], fetched_at: 1_100 };
    p.last_attempt_at = Some(1_100);
    let lines = detail_lines(&p, &theme, 1_100);
    assert_eq!(text(&lines[0]), "Recent runs   fetched just now");
    assert_eq!(text(&lines[1]), "polling: recent");
    assert_eq!(lines.len(), 3 + 2 * 4);
    let block = run_block(&run(RunState::Success), &theme, 1_000 + 125);
    assert_eq!(text(&block[0]), "✓ Success  CI  #12");
    assert_eq!(text(&block[1]), "    ⎇ main  ◦ abc1234  ⚡ push");
    assert_eq!(text(&block[2]), "    2m 5s ago  ⏱ 1m 12s");
}

#[test]
fn list_titles_and_empty_states() {
    assert_eq!(list_title(3, 12, true), " Projects (3/12) ");
    assert_eq!(list_title(3, 12, false), " Projects ");
    let lines = empty_no_matches(&Theme::default());
    assert_eq!(text(&lines[3]), "  Press c to clear filters.");
}

#[test]
fn header_and_footer_reflect_filters() {
    let theme = Theme::default();
    let mut s = AppState::with_config(
        vec![Project::new("acme", "api"), Project::new("other", "x")],
        PollIntervals::default(),
        FixedClock::new(0),
    );
    assert_eq!(text(&header_spans(&s, &theme)), " ⬡ GitHub Actions Status  ·  2 projects");
    s.filter.owner = Some("acme".into());
    assert_eq!(
        text(&header_spans(&s, &theme)),
        " ⬡ GitHub Actions Status  ·  1 / 2 shown   owner:acme "
    );
    let hints = text(&normal_hints(&s, &theme));
    assert!(hints.contains("c clear"));
    s.filter.owner = None;
    assert!(!text(&normal_hints(&s, &theme)).contains("c clear"));
    s.filter.query = "ap".into();
    assert_eq!(
        text(&search_prompt(&s, &theme)),
        " / ap▏    1 match(es)    Enter apply  Esc cancel"
    );
}

#[test]
fn overlays() {
    let theme = Theme::default();
    let help = help_lines(&theme);
    assert_eq!(help.len(), 2 + 11 + 3 + 5);
    assert_eq!(text(&help[2]), format!("  {:<18}Move up / down", "↑/k  ↓/j"));
    let confirm = confirm_lines(&PendingDelete::Owner { owner: "acme".into(), count: 2 }, &theme);
    assert_eq!(text(&confirm[0]), "Remove ALL 2 repo(s) of \"acme\" from your dashboard?");
    let t = Toast::new("Saved", ToastKind::Success);
    assert_eq!(toast_text(&t, &theme), "✓  Saved");
    let area = Rect { x: 0, y: 1, width: 80, height: 20 };
    let r = toast_rect(area, 8);
    assert_eq!(r, Rect { x: 67, y: 17, width: 12, height: 3 });
    assert_eq!(pad(area), Rect { x: 1, y: 1, width: 79, height: 20 });
}

#[test]
fn palette_maps_states_and_toasts() {
    let t = Theme::midnight();
    assert_eq!(t.state_color(RunState::Cancelled), t.text_muted);
    assert_eq!(t.state_color(RunState::Queued), t.warning);
    assert_eq!(t.toast_color(ToastKind::Error), t.failure);
    assert_eq!(t.toast_glyph(ToastKind::Warning), "⚠");
    assert_eq!(t.bg, Rgb { r: 0x0d, g: 0x11, b: 0x17 });
    assert_eq!(t.spinner_frame(0), "⠋");
    assert_eq!(t.spinner_frame(10), "⠋");
    assert!(t.chip().bold);
    assert_eq!(t.border_style(true).fg, Some(t.border_focus));
}

#[test]
fn overlays_are_centred_in_the_screen() {
    let screen = Rect { x: 0, y: 0, width: 100, height: 50 };
    assert_eq!(centered(screen, 60, 8), Rect { x: 20, y: 21, width: 60, height: 8 });
    let offset = Rect { x: 10, y: 5, width: 100, height: 50 };
    assert_eq!(centered(offset, 64, 24), Rect { x: 28, y: 18, width: 64, height: 24 });
}

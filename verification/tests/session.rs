use github_status::adapters::FixedClock;
use github_status::app::{AppState, Command};
use github_status::domain::{PollIntervals, Project};
use github_status::tui::keymap::{KeyCode, KeyEvent, KeyModifiers};
use github_status::tui::session::{Event, Session, SCHEDULER_EVERY_TICKS};

fn session() -> Session<FixedClock> {
    Session::new(AppState::with_config(
        vec![Project::new("a", "b"), Project::new("c", "d")],
        PollIntervals::default(),
        FixedClock::new(1_000),
    ))
}

#[test]
fn unbound_keys_do_nothing_and_bound_keys_dispatch() {
    let mut s = session();
    let (redraw, cmds) = s.handle_event(Event::Key(KeyEvent::new(KeyCode::Char('z'), KeyModifiers::empty())));
    assert!(!redraw && cmds.is_empty());
    let (redraw, cmds) = s.handle_event(Event::Key(KeyEvent::new(KeyCode::Char('r'), KeyModifiers::empty())));
    assert!(redraw);
    assert!(matches!(cmds[0], Command::Fetch(ref t) if t.len() == 2));
}

#[test]
fn confirmation_captures_keys() {
    let mut s = session();
    s.handle_event(Event::Key(KeyEvent::new(KeyCode::Char('d'), KeyModifiers::empty())));
    assert!(s.state.pending_delete.is_some());
    let (_, cmds) = s.handle_event(Event::Key(KeyEvent::new(KeyCode::Char('q'), KeyModifiers::empty())));
    assert!(cmds.is_empty());
    assert!(s.state.running);
    let (_, cmds) = s.handle_event(Event::Key(KeyEvent::new(KeyCode::Char('y'), KeyModifiers::empty())));
    assert_eq!(cmds, vec![Command::PersistProjects]);
    assert_eq!(s.state.projects.len(), 1);
}

#[test]
fn scheduler_polls_every_few_ticks() {
    let mut s = session();
    for _ in 0..SCHEDULER_EVERY_TICKS - 1 {
        let (_, cmds) = s.handle_event(Event::Tick);
        assert!(cmds.is_empty());
    }
    let (redraw, cmds) = s.handle_event(Event::Tick);
    assert!(matches!(cmds[0], Command::Fetch(ref t) if t.len() == 2));
    assert!(redraw);
    assert_eq!(s.ticks, SCHEDULER_EVERY_TICKS);
    assert!(s.handle_event(Event::Resize(10, 10)).0);
}

#[test]
fn save_failure_becomes_an_error_toast() {
    let mut s = session();
    s.save_failed("disk full");
    assert_eq!(s.state.toast.as_ref().unwrap().message, "Could not save config: disk full");
}

#[test]
fn zero_refresh_interval_disables_auto_refresh() {
    let state = AppState::with_config(
        vec![Project::new("a", "b")],
        PollIntervals::default(),
        FixedClock::new(1_000),
    );
    let mut s = Session::with_refresh_interval(state, 0);
    assert!(!s.auto_refresh);
    for _ in 0..SCHEDULER_EVERY_TICKS * 2 {
        let (_, cmds) = s.handle_event(Event::Tick);
        assert!(cmds.is_empty());
    }
    let on = Session::with_refresh_interval(
        AppState::with_config(vec![Project::new("a", "b")], PollIntervals::default(), FixedClock::new(1_000)),
        60,
    );
    assert!(on.auto_refresh);
}

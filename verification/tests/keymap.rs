use github_status::app::{Action, InputMode};
use github_status::tui::keymap::{help_bindings, map_key, map_key_with_prompt, KeyCode, KeyEvent, KeyModifiers};

fn key(code: KeyCode) -> KeyEvent {
    KeyEvent::new(code, KeyModifiers::empty())
}

#[test]
fn ctrl_c_quits_in_any_mode() {
    let k = KeyEvent::new(KeyCode::Char('c'), KeyModifiers::control());
    assert!(matches!(map_key(k, InputMode::Normal), Action::Quit));
    assert!(matches!(map_key(k, InputMode::Search), Action::Quit));
}

#[test]
fn vim_and_arrows_navigate_in_normal() {
    assert!(matches!(
        map_key(key(KeyCode::Char('j')), InputMode::Normal),
        Action::Down
    ));
    assert!(matches!(
        map_key(key(KeyCode::Down), InputMode::Normal),
        Action::Up | Action::Down
    ));
    assert!(matches!(
        map_key(key(KeyCode::Char('k')), InputMode::Normal),
        Action::Up
    ));
}

#[test]
fn slash_enters_search() {
    assert!(matches!(
        map_key(key(KeyCode::Char('/')), InputMode::Normal),
        Action::EnterSearch
    ));
}

#[test]
fn typing_in_search_mode_feeds_query() {
    assert!(matches!(
        map_key(key(KeyCode::Char('a')), InputMode::Search),
        Action::SearchInput('a')
    ));
    assert!(matches!(
        map_key(key(KeyCode::Enter), InputMode::Search),
        Action::ConfirmSearch
    ));
    assert!(matches!(
        map_key(key(KeyCode::Backspace), InputMode::Search),
        Action::SearchBackspace
    ));
}

#[test]
fn unbound_is_noop() {
    assert!(matches!(
        map_key(key(KeyCode::Char('z')), InputMode::Normal),
        Action::Noop
    ));
}

#[test]
fn delete_keys_and_confirmation_prompt() {
    assert!(matches!(
        map_key(key(KeyCode::Char('d')), InputMode::Normal),
        Action::RequestDeleteRepo
    ));
    assert!(matches!(
        map_key(key(KeyCode::Char('D')), InputMode::Normal),
        Action::RequestDeleteOwner
    ));
    assert!(matches!(
        map_key_with_prompt(key(KeyCode::Char('y')), InputMode::Normal, true),
        Action::ConfirmDelete
    ));
    assert!(matches!(
        map_key_with_prompt(key(KeyCode::Enter), InputMode::Search, true),
        Action::ConfirmDelete
    ));
    assert!(matches!(
        map_key_with_prompt(key(KeyCode::Esc), InputMode::Normal, true),
        Action::CancelDelete
    ));
    assert!(matches!(
        map_key_with_prompt(key(KeyCode::Char('q')), InputMode::Normal, true),
        Action::Noop
    ));
    let ctrl_c = KeyEvent::new(KeyCode::Char('c'), KeyModifiers::control());
    assert!(matches!(
        map_key_with_prompt(ctrl_c, InputMode::Normal, true),
        Action::Quit
    ));
}

#[test]
fn control_chords_do_not_type_into_search() {
    let k = KeyEvent::new(KeyCode::Char('x'), KeyModifiers::control());
    assert!(matches!(map_key(k, InputMode::Search), Action::Noop));
    assert!(KeyModifiers::control().contains(KeyModifiers::empty()));
    assert!(!KeyModifiers::empty().contains(KeyModifiers::control()));
}

#[test]
fn help_lists_every_binding_row() {
    let rows = help_bindings();
    assert_eq!(rows.len(), 11);
    assert_eq!(rows[0], ("↑/k  ↓/j", "Move up / down"));
    assert!(rows.iter().any(|(k, _)| *k == "d / D"));
}

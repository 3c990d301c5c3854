//! Keymap — the mapping from key presses to [`Action`]s, in one place.
//!
//! The help overlay is rendered from [`help_bindings`], so the documented
//! bindings and the behavior cannot drift apart.

use vstd::prelude::*;
use crate::app::action::Action;
use crate::app::state::InputMode;

verus! {

/// Which key was pressed.
#[derive(Debug, Clone, Copy, PartialEq, Eq, Structural)]
pub enum KeyCode {
    Char(char),
    Enter,
    Esc,
    Backspace,
    Up,
    Down,
    /// Any key the app has no binding for.
    Other,
}

/// The control modifier's bit.
pub const CONTROL_BIT: u8 = 2;

/// Modifier keys held during a press, as bit flags (shift, control, alt,
/// super, hyper, meta from the lowest bit up).
#[derive(Debug, Clone, Copy, PartialEq, Eq, Structural)]
pub struct KeyModifiers {
    pub bits: u8,
}

impl KeyModifiers {
    /// No modifier held.
    pub fn empty() -> (m: KeyModifiers)
        ensures
            m.bits == 0,
    {
        KeyModifiers { bits: 0 }
    }

    /// Control held.
    pub fn control() -> (m: KeyModifiers)
        ensures
            m.bits == CONTROL_BIT,
    {
        KeyModifiers { bits: CONTROL_BIT }
    }

    pub open spec fn spec_contains(self, other: KeyModifiers) -> bool {
        self.bits & other.bits == other.bits
    }

    /// Whether every modifier of `other` is held.
    pub fn contains(self, other: KeyModifiers) -> (r: bool)
        ensures
            r == self.spec_contains(other),
    {
        self.bits & other.bits == other.bits
    }
}

/// A key press.
#[derive(Debug, Clone, Copy, PartialEq, Eq, Structural)]
pub struct KeyEvent {
    pub code: KeyCode,
    pub modifiers: KeyModifiers,
}

impl KeyEvent {
    pub fn new(code: KeyCode, modifiers: KeyModifiers) -> (k: KeyEvent)
        ensures
            k == (KeyEvent { code, modifiers }),
    {
        KeyEvent { code, modifiers }
    }
}

/// The binding rows of the help overlay: `(keys, description)`.
pub open spec fn help_rows() -> Seq<(Seq<char>, Seq<char>)> {
    seq![
        ("↑/k  ↓/j"@, "Move up / down"@),
        ("g / G"@, "Jump to top / bottom"@),
        ("r"@, "Refresh all projects"@),
        ("/"@, "Search — type to filter, Enter applies"@),
        ("f"@, "Show only the selected owner"@),
        ("c"@, "Clear search & filters"@),
        ("d / D"@, "Remove the selected repo / all repos of its owner"@),
        ("o / Enter"@, "Open latest run in browser"@),
        ("?"@, "Toggle this help"@),
        ("Esc"@, "Cancel prompt / exit search / clear filter / quit"@),
        ("q / Ctrl-C"@, "Quit"@),
    ]
}

/// Human-readable binding rows for the help overlay: `(keys, description)`.
pub fn help_bindings() -> (r: Vec<(&'static str, &'static str)>)
    ensures
        r@.map_values(|b: (&'static str, &'static str)| (b.0@, b.1@)) == help_rows(),
{
    let r = vec![
        ("↑/k  ↓/j", "Move up / down"),
        ("g / G", "Jump to top / bottom"),
        ("r", "Refresh all projects"),
        ("/", "Search — type to filter, Enter applies"),
        ("f", "Show only the selected owner"),
        ("c", "Clear search & filters"),
        ("d / D", "Remove the selected repo / all repos of its owner"),
        ("o / Enter", "Open latest run in browser"),
        ("?", "Toggle this help"),
        ("Esc", "Cancel prompt / exit search / clear filter / quit"),
        ("q / Ctrl-C", "Quit"),
    ];
    assert(r@.map_values(|b: (&'static str, &'static str)| (b.0@, b.1@)) =~= help_rows());
    r
}

/// Ctrl-C, which quits in every mode.
pub open spec fn is_interrupt(key: KeyEvent) -> bool {
    key.modifiers.spec_contains(KeyModifiers { bits: CONTROL_BIT }) && key.code == KeyCode::Char('c')
}

/// The action a key triggers while typing a search query.
pub open spec fn search_action(key: KeyEvent) -> Action {
    match key.code {
        KeyCode::Esc => Action::Escape,
        KeyCode::Enter => Action::ConfirmSearch,
        KeyCode::Backspace => Action::SearchBackspace,
        KeyCode::Up => Action::Up,
        KeyCode::Down => Action::Down,
        KeyCode::Char(c) => if !key.modifiers.spec_contains(KeyModifiers { bits: CONTROL_BIT }) {
            Action::SearchInput(c)
        } else {
            Action::Noop
        },
        KeyCode::Other => Action::Noop,
    }
}

/// The action a key triggers in normal navigation.
pub open spec fn normal_action(code: KeyCode) -> Action {
    match code {
        KeyCode::Char(c) => if c == 'q' {
            Action::Quit
        } else if c == 'k' {
            Action::Up
        } else if c == 'j' {
            Action::Down
        } else if c == 'g' {
            Action::Top
        } else if c == 'G' {
            Action::Bottom
        } else if c == 'r' {
            Action::Refresh
        } else if c == '/' {
            Action::EnterSearch
        } else if c == 'f' {
            Action::FilterSelectedOwner
        } else if c == 'c' {
            Action::ClearFilters
        } else if c == 'd' {
            Action::RequestDeleteRepo
        } else if c == 'D' {
            Action::RequestDeleteOwner
        } else if c == 'o' {
            Action::OpenInBrowser
        } else if c == '?' {
            Action::ToggleHelp
        } else {
            Action::Noop
        },
        KeyCode::Esc => Action::Escape,
        KeyCode::Up => Action::Up,
        KeyCode::Down => Action::Down,
        KeyCode::Enter => Action::OpenInBrowser,
        _ => Action::Noop,
    }
}

/// The action a key triggers while a delete confirmation is open.
pub open spec fn confirm_action(code: KeyCode) -> Action {
    match code {
        KeyCode::Char(c) => if c == 'y' {
            Action::ConfirmDelete
        } else if c == 'n' {
            Action::CancelDelete
        } else {
            Action::Noop
        },
        KeyCode::Enter => Action::ConfirmDelete,
        KeyCode::Esc => Action::CancelDelete,
        _ => Action::Noop,
    }
}

/// The action for `key` in `mode`, with a delete confirmation open or not.
pub open spec fn key_action(key: KeyEvent, mode: InputMode, confirming: bool) -> Action {
    if is_interrupt(key) {
        Action::Quit
    } else if confirming {
        confirm_action(key.code)
    } else {
        match mode {
            InputMode::Search => search_action(key),
            InputMode::Normal => normal_action(key.code),
        }
    }
}

/// Translate a key into an action given the current input mode. Unbound
/// keys map to [`Action::Noop`], so the reducer stays total.
pub fn map_key(key: KeyEvent, mode: InputMode) -> (a: Action)
    ensures
        a == key_action(key, mode, false),
{
    map_key_with_prompt(key, mode, false)
}

/// Translate a key into an action given the current input mode and whether
/// a delete confirmation is open: while it is, only confirming or
/// cancelling (and Ctrl-C) do anything.
pub fn map_key_with_prompt(key: KeyEvent, mode: InputMode, confirming: bool) -> (a: Action)
    ensures
        a == key_action(key, mode, confirming),
{
    if key.modifiers.contains(KeyModifiers::control()) && key.code == KeyCode::Char('c') {
        return Action::Quit;
    }
    if confirming {
        return map_confirm_key(key);
    }
    match mode {
        InputMode::Search => map_search_key(key),
        InputMode::Normal => map_normal_key(key),
    }
}

/// Bindings while a delete confirmation is open.
fn map_confirm_key(key: KeyEvent) -> (a: Action)
    ensures
        a == confirm_action(key.code),
{
    match key.code {
        KeyCode::Char('y') | KeyCode::Enter => Action::ConfirmDelete,
        KeyCode::Char('n') | KeyCode::Esc => Action::CancelDelete,
        _ => Action::Noop,
    }
}

/// Bindings while typing a search query.
fn map_search_key(key: KeyEvent) -> (a: Action)
    ensures
        a == search_action(key),
{
    match key.code {
        KeyCode::Esc => Action::Escape,
        KeyCode::Enter => Action::ConfirmSearch,
        KeyCode::Backspace => Action::SearchBackspace,
        KeyCode::Up => Action::Up,
        KeyCode::Down => Action::Down,
        KeyCode::Char(c) => {
            if !key.modifiers.contains(KeyModifiers::control()) {
                Action::SearchInput(c)
            } else {
                Action::Noop
            }
        },
        KeyCode::Other => Action::Noop,
    }
}

/// Bindings in normal navigation mode.
fn map_normal_key(key: KeyEvent) -> (a: Action)
    ensures
        a == normal_action(key.code),
{
    match key.code {
        KeyCode::Char('q') => Action::Quit,
        KeyCode::Esc => Action::Escape,
        KeyCode::Up | KeyCode::Char('k') => Action::Up,
        KeyCode::Down | KeyCode::Char('j') => Action::Down,
        KeyCode::Char('g') => Action::Top,
        KeyCode::Char('G') => Action::Bottom,
        KeyCode::Char('r') => Action::Refresh,
        KeyCode::Char('/') => Action::EnterSearch,
        KeyCode::Char('f') => Action::FilterSelectedOwner,
        KeyCode::Char('c') => Action::ClearFilters,
        KeyCode::Char('d') => Action::RequestDeleteRepo,
        KeyCode::Char('D') => Action::RequestDeleteOwner,
        KeyCode::Char('o') | KeyCode::Enter => Action::OpenInBrowser,
        KeyCode::Char('?') => Action::ToggleHelp,
        _ => Action::Noop,
    }
}

/// Ctrl-C quits whatever the mode, and while a confirmation is open no key
/// but confirm, cancel and Ctrl-C does anything.
pub proof fn law_interrupt_quits_and_prompt_captures(key: KeyEvent, mode: InputMode)
    ensures
        is_interrupt(key) ==> key_action(key, mode, true) is Quit && key_action(key, mode, false) is Quit,
        !is_interrupt(key) ==> (key_action(key, mode, true) is ConfirmDelete || key_action(key, mode, true) is CancelDelete || key_action(key, mode, true) is Noop),
{
}

} // verus!

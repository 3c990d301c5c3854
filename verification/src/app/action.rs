//! Actions — the only way to mutate the application state (Elm-style).

use vstd::prelude::*;
use crate::domain::run::WorkflowRun;
use crate::ports::ProviderError;

verus! {

/// A message that drives a state transition.
#[derive(Debug)]
pub enum Action {
    /// Move the list selection up.
    Up,
    /// Move the list selection down.
    Down,
    /// Jump to the first project.
    Top,
    /// Jump to the last project.
    Bottom,
    /// Manually refresh every visible project.
    Refresh,
    /// Scheduler tick: fetch the visible projects that are due.
    PollDue,
    /// Open the selected project's latest run in a browser.
    OpenInBrowser,
    /// Toggle the help overlay.
    ToggleHelp,
    /// Enter incremental-search mode.
    EnterSearch,
    /// Append a character to the active search query.
    SearchInput(char),
    /// Delete the last character of the search query.
    SearchBackspace,
    /// Leave search mode, keeping the current query as an active filter.
    ConfirmSearch,
    /// Limit the list to the selected project's owner (company/org).
    FilterSelectedOwner,
    /// Clear all active filters (search query + owner).
    ClearFilters,
    /// Ask to remove the selected repository (opens a confirm prompt).
    RequestDeleteRepo,
    /// Ask to remove every repository of the selected owner.
    RequestDeleteOwner,
    /// Confirm the pending removal.
    ConfirmDelete,
    /// Dismiss the pending removal.
    CancelDelete,
    /// Context-sensitive escape.
    Escape,
    /// Request to quit.
    Quit,
    /// A periodic tick (spinner animation / toast aging).
    Tick,
    /// A background fetch finished for the project at `index`.
    FetchCompleted { index: usize, result: Result<Vec<WorkflowRun>, ProviderError> },
    /// No-op (e.g. an unmapped key).
    Noop,
}

} // verus!

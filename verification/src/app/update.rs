//! The reducer: every [`Action`] is folded into the state here, yielding the
//! side effect (a [`Command`]) the runtime should perform.

use vstd::prelude::*;
use super::action::Action;
use super::fetch::{fetch_applied, result_view};
use super::state::{AppState, AppView, Command, CommandView, InputMode, filtering_msg, showing_msg};
use super::toast::{Toast, ToastKind};
use crate::ports::Clock;
use crate::text::{push_decimal, push_str};

verus! {

impl AppView {
    /// State after the context-sensitive escape: a pending delete is
    /// cancelled first, then search mode is left, then active filters are
    /// cleared, and only then does the app stop.
    pub open spec fn escaped(self) -> AppView {
        if self.pending_delete is Some {
            AppView { pending_delete: None, ..self }
        } else if self.mode == InputMode::Search {
            AppView { mode: InputMode::Normal, ..self }.clamped()
        } else if self.has_active_filter() {
            self.filters_cleared()
        } else {
            AppView { running: false, ..self }
        }
    }

    /// Command issued by the context-sensitive escape.
    pub open spec fn escape_command(self) -> CommandView {
        if self.pending_delete is None && self.mode != InputMode::Search
            && !self.has_active_filter() {
            CommandView::Quit
        } else {
            CommandView::Nothing
        }
    }
}

/// Whether `(new, cmd)` is what reducing `action` at time `now` yields from `old`.
pub open spec fn reduces(
    old: AppView,
    action: Action,
    now: i64,
    new: AppView,
    cmd: CommandView,
) -> bool {
    match action {
        Action::Up => new == old.moved(true) && cmd == CommandView::Nothing,
        Action::Down => new == old.moved(false) && cmd == CommandView::Nothing,
        Action::Top => new == (AppView { selected: 0, ..old }) && cmd == CommandView::Nothing,
        Action::Bottom => new == old.at_bottom() && cmd == CommandView::Nothing,
        Action::ToggleHelp => new == (AppView { show_help: !old.show_help, ..old }) && cmd
            == CommandView::Nothing,
        Action::Refresh => new == old.refreshed(now) && cmd == old.refresh_command(now),
        Action::PollDue => new == old.polled(now) && cmd == old.poll_command(now),
        Action::OpenInBrowser => match old.open_target() {
            Some(url) => new == old.with_toast("Opening run in browser…"@, ToastKind::Success)
                && cmd == CommandView::OpenUrl(url),
            None => new == old.with_toast(
                "No run to open for this project"@,
                ToastKind::Warning,
            ) && cmd == CommandView::Nothing,
        },
        Action::EnterSearch => new == (AppView { mode: InputMode::Search, ..old }) && cmd
            == CommandView::Nothing,
        Action::SearchInput(c) => new == old.search_typed(c) && cmd == CommandView::Nothing,
        Action::SearchBackspace => new == old.search_erased() && cmd == CommandView::Nothing,
        Action::ConfirmSearch => new == old.search_confirmed() && cmd == CommandView::Nothing,
        Action::FilterSelectedOwner => new == old.owner_filtered() && cmd == CommandView::Nothing,
        Action::ClearFilters => new == old.filters_cleared() && cmd == CommandView::Nothing,
        Action::RequestDeleteRepo => new == old.repo_delete_requested() && cmd
            == CommandView::Nothing,
        Action::RequestDeleteOwner => new == old.owner_delete_requested() && cmd
            == CommandView::Nothing,
        Action::ConfirmDelete => new == old.delete_confirmed() && cmd == old.delete_command(),
        Action::CancelDelete => new == (AppView { pending_delete: None, ..old }) && cmd
            == CommandView::Nothing,
        Action::Escape => new == old.escaped() && cmd == old.escape_command(),
        Action::Quit => new == (AppView { running: false, ..old }) && cmd == CommandView::Quit,
        Action::Tick => new == old.ticked() && cmd == CommandView::Nothing,
        Action::FetchCompleted { index, result } => fetch_applied(
            old,
            new,
            cmd,
            index,
            result_view(result),
            now,
        ),
        Action::Noop => new == old && cmd == CommandView::Nothing,
    }
}

impl<C: Clock> AppState<C> {
    /// Leave search mode; keep a non-blank query as the active filter and
    /// announce how many projects match, or drop a blank one.
    fn confirm_search(&mut self)
        ensures
            final(self)@ == old(self)@.search_confirmed(),
            final(self).clock == old(self).clock,
    {
        self.mode = InputMode::Normal;
        let q = match self.filter.query_text() {
            Some(q) => {
                let mut owned = String::new();
                push_str(&mut owned, q);
                Some(owned)
            },
            None => None,
        };
        match q {
            None => {
                self.filter.query = String::new();
            },
            Some(q) => {
                let n = self.visible_count();
                let mut msg = String::new();
                push_str(&mut msg, "Filtering by \"");
                push_str(&mut msg, q.as_str());
                push_str(&mut msg, "\" — ");
                push_decimal(&mut msg, n as u64);
                push_str(&mut msg, " match(es)");
                assert(msg@ =~= filtering_msg(q@, n as nat));
                self.toast = Some(Toast::info(msg.as_str()));
            },
        }
        self.clamp_selection();
    }

    /// Restrict the list to the selected project's owner.
    fn filter_selected_owner(&mut self)
        ensures
            final(self)@ == old(self)@.owner_filtered(),
            final(self).clock == old(self).clock,
    {
        let owner = match self.selected_status() {
            Some(st) => Some(st.project.owner.clone()),
            None => None,
        };
        if let Some(owner) = owner {
            self.filter.owner = Some(owner.clone());
            self.selected = 0;
            self.clamp_selection();
            let n = self.visible_count();
            let mut msg = String::new();
            push_str(&mut msg, "Showing only ");
            push_str(&mut msg, owner.as_str());
            push_str(&mut msg, "/* (");
            push_decimal(&mut msg, n as u64);
            push_str(&mut msg, " repos)");
            assert(msg@ =~= showing_msg(owner@, n as nat));
            self.toast = Some(Toast::new(msg.as_str(), ToastKind::Info));
        }
    }

    /// Clear the search query and owner filter and leave search mode.
    fn clear_filters(&mut self)
        ensures
            final(self)@ == old(self)@.filters_cleared(),
            final(self).clock == old(self).clock,
    {
        let had = self.has_active_filter();
        self.filter.clear();
        self.mode = InputMode::Normal;
        self.clamp_selection();
        if had {
            self.toast = Some(Toast::info("Filters cleared"));
        }
    }

    /// Context-sensitive escape: pending delete → cancel; search mode →
    /// leave search; active filter → clear it; otherwise quit.
    fn handle_escape(&mut self) -> (cmd: Command)
        ensures
            final(self)@ == old(self)@.escaped(),
            cmd@ == old(self)@.escape_command(),
            final(self).clock == old(self).clock,
    {
        if self.pending_delete.is_some() {
            self.pending_delete = None;
            Command::Nothing
        } else if self.mode == InputMode::Search {
            self.mode = InputMode::Normal;
            self.clamp_selection();
            Command::Nothing
        } else if self.has_active_filter() {
            self.clear_filters();
            Command::Nothing
        } else {
            self.running = false;
            Command::Quit
        }
    }

    /// Advance the spinner and age the toast, dropping it once expired.
    fn tick(&mut self)
        ensures
            final(self)@ == old(self)@.ticked(),
            final(self).clock == old(self).clock,
    {
        self.spinner_frame = if self.spinner_frame == usize::MAX {
            0
        } else {
            self.spinner_frame + 1
        };
        if let Some(mut t) = self.toast.take() {
            if t.tick() {
                self.toast = Some(t);
            }
        }
    }

    /// Reduce `action` into a state change at time `now`, returning the side
    /// effect the runtime should perform.
    pub fn update_at(&mut self, action: Action, now: i64) -> (cmd: Command)
        ensures
            reduces(old(self)@, action, now, final(self)@, cmd@),
            final(self).clock == old(self).clock,
    {
        match action {
            Action::Up => {
                self.move_selection(true);
                Command::Nothing
            },
            Action::Down => {
                self.move_selection(false);
                Command::Nothing
            },
            Action::Top => {
                self.selected = 0;
                Command::Nothing
            },
            Action::Bottom => {
                let n = self.visible_count();
                self.selected = if n == 0 {
                    0
                } else {
                    n - 1
                };
                Command::Nothing
            },
            Action::ToggleHelp => {
                self.show_help = !self.show_help;
                Command::Nothing
            },
            Action::Refresh => self.refresh_visible_at(now),
            Action::PollDue => self.poll_due_at(now),
            Action::OpenInBrowser => self.open_selected(),
            Action::EnterSearch => {
                self.mode = InputMode::Search;
                Command::Nothing
            },
            Action::SearchInput(c) => {
                if self.mode == InputMode::Search {
                    self.filter.query.push(c);
                    self.clamp_selection();
                }
                Command::Nothing
            },
            Action::SearchBackspace => {
                if self.mode == InputMode::Search {
                    self.filter.query.pop();
                    self.clamp_selection();
                }
                Command::Nothing
            },
            Action::ConfirmSearch => {
                self.confirm_search();
                Command::Nothing
            },
            Action::FilterSelectedOwner => {
                self.filter_selected_owner();
                Command::Nothing
            },
            Action::ClearFilters => {
                self.clear_filters();
                Command::Nothing
            },
            Action::RequestDeleteRepo => {
                self.request_delete_repo();
                Command::Nothing
            },
            Action::RequestDeleteOwner => {
                self.request_delete_owner();
                Command::Nothing
            },
            Action::ConfirmDelete => self.confirm_delete(),
            Action::CancelDelete => {
                self.pending_delete = None;
                Command::Nothing
            },
            Action::Escape => self.handle_escape(),
            Action::Quit => {
                self.running = false;
                Command::Quit
            },
            Action::Tick => {
                self.tick();
                Command::Nothing
            },
            Action::FetchCompleted { index, result } => self.apply_fetch_result(index, result, now),
            Action::Noop => Command::Nothing,
        }
    }

    /// Reduce `action` into a state change at the clock's current time.
    pub fn update(&mut self, action: Action) -> (cmd: Command)
        ensures
            exists|now: i64|
                old(self).clock.can_read(now) && reduces(old(self)@, action, now, final(self)@, cmd@),
            final(self).clock == old(self).clock,
    {
        let now = self.now();
        self.update_at(action, now)
    }
}

} // verus!

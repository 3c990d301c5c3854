//! Application state — the single source of truth for the UI — and the pure
//! queries over it. State transitions live in the sibling reducer modules.
//!
//! `projects` is the only list of truth; the filtered list the user sees is
//! derived on demand ([`AppState::visible_indices`]). `selected` indexes the
//! *visible* list and deliberately does not follow a project across re-sorts.

use vstd::prelude::*;
use super::filter::{filter_active, passes_filter, Filter};
use super::toast::{fresh_toast, Toast, ToastKind, ToastView};
use crate::domain::poll::PollIntervals;
use crate::domain::project::{opt_view, owned_by, slug_of, Project};
use crate::domain::project_status::{views, LoadView, ProjectStatus, ProjectStatusView};
use crate::ports::Clock;
use crate::text::{decimal, push_decimal, push_str};

verus! {

/// Side effects the runtime should perform after an update.
#[derive(Debug, PartialEq, Eq)]
pub enum Command {
    /// Nothing to do.
    Nothing,
    /// Fetch these `(physical index, project)` pairs; they are already
    /// marked `Loading` with the attempt time recorded.
    Fetch(Vec<(usize, Project)>),
    /// Open this URL in the system browser.
    OpenUrl(String),
    /// Persist the current project list (after a delete).
    PersistProjects,
    /// Persist the current run data to the cache (after a poll batch settles).
    PersistCache,
    /// Tear down and exit.
    Quit,
}

/// Mathematical view of a [`Command`].
pub enum CommandView {
    Nothing,
    Fetch(Seq<(usize, Project)>),
    OpenUrl(Seq<char>),
    PersistProjects,
    PersistCache,
    Quit,
}

impl View for Command {
    type V = CommandView;

    open spec fn view(&self) -> CommandView {
        match self {
            Command::Nothing => CommandView::Nothing,
            Command::Fetch(t) => CommandView::Fetch(t@),
            Command::OpenUrl(u) => CommandView::OpenUrl(u@),
            Command::PersistProjects => CommandView::PersistProjects,
            Command::PersistCache => CommandView::PersistCache,
            Command::Quit => CommandView::Quit,
        }
    }
}

/// A confirmation pending the user's yes/no — drives the delete modal.
#[derive(Debug, Clone, PartialEq, Eq)]
pub enum PendingDelete {
    /// Remove a single repository (`owner/repo`).
    Repo { slug: String },
    /// Remove every repository of an owner/company; `count` is how many.
    Owner { owner: String, count: usize },
}

/// Mathematical view of a [`PendingDelete`].
pub enum PendingView {
    Repo { slug: Seq<char> },
    Owner { owner: Seq<char>, count: usize },
}

impl View for PendingDelete {
    type V = PendingView;

    open spec fn view(&self) -> PendingView {
        match self {
            PendingDelete::Repo { slug } => PendingView::Repo { slug: slug@ },
            PendingDelete::Owner { owner, count } => PendingView::Owner {
                owner: owner@,
                count: *count,
            },
        }
    }
}

impl PendingDelete {
    pub open spec fn spec_prompt(self) -> Seq<char> {
        match self {
            PendingDelete::Repo { slug } => "Remove "@ + slug@ + " from your dashboard?"@,
            PendingDelete::Owner { owner, count } => "Remove ALL "@ + decimal(count as nat)
                + " repo(s) of \""@ + owner@ + "\" from your dashboard?"@,
        }
    }

    /// Human-readable prompt body.
    pub fn prompt(&self) -> (r: String)
        ensures
            r@ == self.spec_prompt(),
    {
        let mut r = String::new();
        match self {
            PendingDelete::Repo { slug } => {
                push_str(&mut r, "Remove ");
                push_str(&mut r, slug.as_str());
                push_str(&mut r, " from your dashboard?");
            },
            PendingDelete::Owner { owner, count } => {
                push_str(&mut r, "Remove ALL ");
                push_decimal(&mut r, *count as u64);
                push_str(&mut r, " repo(s) of \"");
                push_str(&mut r, owner.as_str());
                push_str(&mut r, "\" from your dashboard?");
            },
        }
        assert(r@ =~= self.spec_prompt());
        r
    }
}

/// Keyboard input mode — determines how keys are interpreted.
#[derive(Debug, Clone, Copy, PartialEq, Eq, Structural)]
pub enum InputMode {
    /// Normal navigation.
    Normal,
    /// Typing into the search box.
    Search,
}

/// The whole UI state.
pub struct AppState<C: Clock> {
    /// Projects with their load state (physical order; re-sorted when a
    /// refresh batch settles).
    pub projects: Vec<ProjectStatus>,
    /// Selection index into the **visible** (filtered) list.
    pub selected: usize,
    /// Current input mode.
    pub mode: InputMode,
    /// Active view filters (search query + owner).
    pub filter: Filter,
    /// Whether the help overlay is visible.
    pub show_help: bool,
    /// Set false to break the event loop.
    pub running: bool,
    /// Number of in-flight fetches.
    pub inflight: usize,
    /// Animation frame counter for spinners.
    pub spinner_frame: usize,
    /// Optional transient notification.
    pub toast: Option<Toast>,
    /// A delete awaiting confirmation.
    pub pending_delete: Option<PendingDelete>,
    /// Adaptive polling intervals (from config).
    pub intervals: PollIntervals,
    /// While `Some(until)` and `now < until`, polling is paused.
    pub rate_limited_until: Option<i64>,
    /// Set when run data changed and the cache should be re-persisted.
    pub cache_dirty: bool,
    /// The source of "now" for every time-dependent decision.
    pub clock: C,
}

/// Mathematical view of an [`AppState`] (everything but the clock).
pub struct AppView {
    pub projects: Seq<ProjectStatusView>,
    pub selected: usize,
    pub mode: InputMode,
    pub query: Seq<char>,
    pub owner_filter: Option<Seq<char>>,
    pub show_help: bool,
    pub running: bool,
    pub inflight: usize,
    pub spinner_frame: usize,
    pub toast: Option<ToastView>,
    pub pending_delete: Option<PendingView>,
    pub intervals: PollIntervals,
    pub rate_limited_until: Option<i64>,
    pub cache_dirty: bool,
}

/// View of an optional toast.
pub open spec fn toast_view(t: Option<Toast>) -> Option<ToastView> {
    match t {
        Some(t) => Some(t@),
        None => None,
    }
}

/// View of an optional pending delete.
pub open spec fn pending_view(p: Option<PendingDelete>) -> Option<PendingView> {
    match p {
        Some(p) => Some(p@),
        None => None,
    }
}

impl<C: Clock> View for AppState<C> {
    type V = AppView;

    open spec fn view(&self) -> AppView {
        AppView {
            projects: views(self.projects@),
            selected: self.selected,
            mode: self.mode,
            query: self.filter.query@,
            owner_filter: opt_view(self.filter.owner),
            show_help: self.show_help,
            running: self.running,
            inflight: self.inflight,
            spinner_frame: self.spinner_frame,
            toast: toast_view(self.toast),
            pending_delete: pending_view(self.pending_delete),
            intervals: self.intervals,
            rate_limited_until: self.rate_limited_until,
            cache_dirty: self.cache_dirty,
        }
    }
}

/// Physical indices `< n` of projects passing the filter, in order.
pub open spec fn visible_upto(
    ps: Seq<ProjectStatusView>,
    query: Seq<char>,
    owner: Option<Seq<char>>,
    n: nat,
) -> Seq<usize>
    decreases n,
{
    if n == 0 {
        seq![]
    } else {
        let r = visible_upto(ps, query, owner, (n - 1) as nat);
        if passes_filter(query, owner, ps[n - 1].project@) {
            r.push((n - 1) as usize)
        } else {
            r
        }
    }
}

/// Number of projects among `ps` owned by `owner`.
pub open spec fn count_owned(ps: Seq<ProjectStatusView>, owner: Seq<char>) -> nat
    decreases ps.len(),
{
    if ps.len() == 0 {
        0
    } else {
        count_owned(ps.drop_last(), owner) + if owned_by(ps.last().project@, owner) {
            1nat
        } else {
            0nat
        }
    }
}

/// `sel` kept inside a list of length `len`.
pub open spec fn clamp_sel(sel: usize, len: nat) -> usize {
    if len == 0 {
        0
    } else if sel >= len {
        (len - 1) as usize
    } else {
        sel
    }
}

/// Toast text after confirming a search.
pub open spec fn filtering_msg(q: Seq<char>, n: nat) -> Seq<char> {
    "Filtering by \""@ + q + "\" — "@ + decimal(n) + " match(es)"@
}

/// Toast text after restricting to an owner.
pub open spec fn showing_msg(owner: Seq<char>, n: nat) -> Seq<char> {
    "Showing only "@ + owner + "/* ("@ + decimal(n) + " repos)"@
}

impl AppView {
    /// Physical indices of visible projects, in display order.
    pub open spec fn visible(self) -> Seq<usize> {
        visible_upto(self.projects, self.query, self.owner_filter, self.projects.len())
    }

    pub open spec fn visible_count(self) -> nat {
        self.visible().len()
    }

    /// `self` with the selection clamped to the visible list.
    pub open spec fn clamped(self) -> AppView {
        AppView { selected: clamp_sel(self.selected, self.visible_count()), ..self }
    }

    /// Physical index of the selected project, if the selection is in range.
    pub open spec fn selected_index(self) -> Option<usize> {
        if self.selected < self.visible_count() {
            Some(self.visible()[self.selected as int])
        } else {
            None
        }
    }

    pub open spec fn selected_status(self) -> Option<ProjectStatusView> {
        match self.selected_index() {
            Some(i) => Some(self.projects[i as int]),
            None => None,
        }
    }

    pub open spec fn has_active_filter(self) -> bool {
        filter_active(self.query, self.owner_filter)
    }

    pub open spec fn is_rate_limited(self, now: i64) -> bool {
        self.rate_limited_until matches Some(until) && now < until
    }

    /// The selection is inside the visible list (or zero when it is empty).
    pub open spec fn selection_in_bounds(self) -> bool {
        if self.visible_count() == 0 {
            self.selected == 0
        } else {
            self.selected < self.visible_count()
        }
    }

    pub open spec fn with_toast(self, msg: Seq<char>, kind: ToastKind) -> AppView {
        AppView { toast: Some(fresh_toast(msg, kind)), ..self }
    }

    // --- simple transitions ---------------------------------------------

    /// Selection moved by one row (`up` or down), wrapping around.
    pub open spec fn moved(self, up: bool) -> AppView {
        let len = self.visible_count();
        AppView {
            selected: if len == 0 {
                0
            } else {
                ((self.selected + (if up { -1int } else { 1int })) % (len as int)) as usize
            },
            ..self
        }
    }

    pub open spec fn at_bottom(self) -> AppView {
        AppView {
            selected: if self.visible_count() == 0 {
                0
            } else {
                (self.visible_count() - 1) as usize
            },
            ..self
        }
    }

    pub open spec fn search_typed(self, c: char) -> AppView {
        if self.mode == InputMode::Search {
            AppView { query: self.query.push(c), ..self }.clamped()
        } else {
            self
        }
    }

    pub open spec fn search_erased(self) -> AppView {
        if self.mode == InputMode::Search {
            AppView {
                query: if self.query.len() > 0 {
                    self.query.drop_last()
                } else {
                    self.query
                },
                ..self
            }.clamped()
        } else {
            self
        }
    }

    pub open spec fn search_confirmed(self) -> AppView {
        let q = crate::text::trim_ws(self.query);
        let s1 = AppView { mode: InputMode::Normal, ..self };
        if q.len() == 0 {
            AppView { query: Seq::empty(), ..s1 }.clamped()
        } else {
            s1.with_toast(filtering_msg(q, s1.visible_count()), ToastKind::Info).clamped()
        }
    }

    pub open spec fn owner_filtered(self) -> AppView {
        match self.selected_status() {
            None => self,
            Some(st) => {
                let s2 = AppView {
                    owner_filter: Some(st.project.owner@),
                    selected: 0,
                    ..self
                }.clamped();
                s2.with_toast(showing_msg(st.project.owner@, s2.visible_count()), ToastKind::Info)
            },
        }
    }

    pub open spec fn filters_cleared(self) -> AppView {
        let s1 = AppView {
            query: Seq::empty(),
            owner_filter: None,
            mode: InputMode::Normal,
            ..self
        }.clamped();
        if self.has_active_filter() {
            s1.with_toast("Filters cleared"@, ToastKind::Info)
        } else {
            s1
        }
    }

    pub open spec fn repo_delete_requested(self) -> AppView {
        match self.selected_status() {
            None => self,
            Some(st) => AppView {
                pending_delete: Some(
                    PendingView::Repo { slug: slug_of(st.project.owner@, st.project.repo@) },
                ),
                ..self
            },
        }
    }

    pub open spec fn owner_delete_requested(self) -> AppView {
        match self.selected_status() {
            None => self,
            Some(st) => AppView {
                pending_delete: Some(
                    PendingView::Owner {
                        owner: st.project.owner@,
                        count: count_owned(self.projects, st.project.owner@) as usize,
                    },
                ),
                ..self
            },
        }
    }

    pub open spec fn ticked(self) -> AppView {
        AppView {
            spinner_frame: if self.spinner_frame == usize::MAX {
                0
            } else {
                (self.spinner_frame + 1) as usize
            },
            toast: match self.toast {
                Some(t) => if t.ttl > 1 {
                    Some(ToastView { ttl: (t.ttl - 1) as u16, ..t })
                } else {
                    None
                },
                None => None,
            },
            ..self
        }
    }

    /// What opening the selected run does: the URL to open, if any.
    pub open spec fn open_target(self) -> Option<Seq<char>> {
        match self.selected_status() {
            Some(st) => match st.spec_latest_run() {
                Some(run) => Some(run.html_url@),
                None => None,
            },
            None => None,
        }
    }
}

impl<C: Clock> AppState<C> {
    /// Build the application state from the configured projects, polling
    /// intervals and clock.
    pub fn with_config(projects: Vec<Project>, intervals: PollIntervals, clock: C) -> (s: Self)
        ensures
            s@.projects.len() == projects@.len(),
            forall|i: int|
                0 <= i < projects@.len() ==> #[trigger] s@.projects[i] == (ProjectStatusView {
                    project: projects@[i],
                    load: LoadView::Idle,
                    last_attempt_at: None,
                    consecutive_errors: 0,
                }),
            s@.selected == 0,
            s@.mode == InputMode::Normal,
            s@.query == Seq::<char>::empty(),
            s@.owner_filter is None,
            !s@.show_help,
            s@.running,
            s@.inflight == 0,
            s@.spinner_frame == 0,
            s@.toast is None,
            s@.pending_delete is None,
            s@.intervals == intervals,
            s@.rate_limited_until is None,
            !s@.cache_dirty,
            s.clock == clock,
    {
        let mut statuses: Vec<ProjectStatus> = Vec::new();
        let mut rest = projects;
        let ghost orig = rest@;
        let n0 = rest.len();
        let mut i: usize = 0;
        while rest.len() > 0
            invariant
                i + rest@.len() == orig.len(),
                orig.len() == n0,
                rest@ == orig.skip(i as int),
                statuses@.len() == i,
                forall|k: int|
                    0 <= k < i ==> #[trigger] statuses@[k]@ == (ProjectStatusView {
                        project: orig[k],
                        load: LoadView::Idle,
                        last_attempt_at: None,
                        consecutive_errors: 0,
                    }),
            decreases rest@.len(),
        {
            let p = rest.remove(0);
            assert(orig.skip(i as int)[0] == p);
            assert(rest@ =~= orig.skip(i + 1));
            statuses.push(ProjectStatus::new(p));
            i = i + 1;
        }
        AppState {
            projects: statuses,
            selected: 0,
            mode: InputMode::Normal,
            filter: Filter::default(),
            show_help: false,
            running: true,
            inflight: 0,
            spinner_frame: 0,
            toast: None,
            pending_delete: None,
            intervals,
            rate_limited_until: None,
            cache_dirty: false,
            clock,
        }
    }

    /// The current time, sampled from the injected clock: a reading that
    /// clock may give.
    pub fn now(&self) -> (r: i64)
        ensures
            self.clock.can_read(r),
    {
        self.clock.now()
    }

    /// Physical indices of projects passing the active filters, in display
    /// order.
    pub fn visible(&self) -> (r: Vec<usize>)
        ensures
            r@ == self@.visible(),
    {
        self.visible_indices()
    }

    /// Physical indices of projects passing the active filters, in order.
    pub fn visible_indices(&self) -> (r: Vec<usize>)
        ensures
            r@ == self@.visible(),
    {
        let mut r: Vec<usize> = Vec::new();
        let mut i: usize = 0;
        while i < self.projects.len()
            invariant
                i <= self.projects@.len(),
                r@ == visible_upto(
                    self@.projects,
                    self@.query,
                    self@.owner_filter,
                    i as nat,
                ),
            decreases self.projects@.len() - i,
        {
            if self.filter.passes(&self.projects[i].project) {
                r.push(i);
            }
            i = i + 1;
        }
        r
    }

    /// Number of currently visible projects.
    pub fn visible_count(&self) -> (r: usize)
        ensures
            r == self@.visible_count(),
    {
        self.visible_indices().len()
    }

    /// Physical index of the `n`th visible project.
    pub fn nth_visible(&self, n: usize) -> (r: Option<usize>)
        ensures
            r == if n < self@.visible_count() {
                Some(self@.visible()[n as int])
            } else {
                None::<usize>
            },
    {
        let v = self.visible_indices();
        if n < v.len() {
            Some(v[n])
        } else {
            None
        }
    }

    /// Whether any filter (search query or owner) is active.
    pub fn has_active_filter(&self) -> (r: bool)
        ensures
            r == self@.has_active_filter(),
    {
        self.filter.is_active()
    }

    /// The currently selected project status (resolving the visible index).
    pub fn selected_status(&self) -> (r: Option<&ProjectStatus>)
        ensures
            match r {
                Some(st) => self@.selected_status() == Some(st@),
                None => self@.selected_status() is None,
            },
    {
        match self.nth_visible(self.selected) {
            Some(i) => {
                proof {
                    assert(self@.projects.len() == self.projects.len());
                    lemma_visible_bounds(self@.projects, self@.query, self@.owner_filter, self@.projects.len());
                }
                Some(&self.projects[i])
            },
            None => None,
        }
    }

    /// Whether any background fetch is currently running.
    pub fn is_loading(&self) -> (r: bool)
        ensures
            r == (self.inflight > 0),
    {
        self.inflight > 0
    }

    /// Whether the UI needs continuous repaint (spinner or live toast).
    pub fn needs_animation(&self) -> (r: bool)
        ensures
            r == (self.inflight > 0 || self.toast is Some),
    {
        self.is_loading() || self.toast.is_some()
    }

    /// Whether polling is currently paused due to a rate-limit cooldown.
    pub fn is_rate_limited(&self, now: i64) -> (r: bool)
        ensures
            r == self@.is_rate_limited(now),
    {
        match self.rate_limited_until {
            Some(until) => now < until,
            None => false,
        }
    }

    /// Snapshot of the current projects as plain domain values.
    pub fn project_list(&self) -> (r: Vec<Project>)
        ensures
            r@.len() == self@.projects.len(),
            forall|i: int| 0 <= i < r@.len() ==> #[trigger] r@[i] == self@.projects[i].project,
    {
        let mut r: Vec<Project> = Vec::new();
        let mut i: usize = 0;
        while i < self.projects.len()
            invariant
                i <= self.projects@.len(),
                r@.len() == i,
                forall|k: int| 0 <= k < i ==> #[trigger] r@[k] == self@.projects[k].project,
            decreases self.projects@.len() - i,
        {
            r.push(self.projects[i].project.duplicate());
            i = i + 1;
        }
        r
    }

    /// Move selection within the visible list, wrapping around.
    pub(crate) fn move_selection(&mut self, up: bool)
        ensures
            final(self)@ == old(self)@.moved(up),
            final(self).clock == old(self).clock,
    {
        let len = self.visible_count();
        if len == 0 {
            self.selected = 0;
            return;
        }
        let cur = self.selected % len;
        proof {
            vstd::arithmetic::div_mod::lemma_add_mod_noop(
                self.selected as int,
                if up { -1int } else { 1int },
                len as int,
            );
            vstd::arithmetic::div_mod::lemma_mod_bound(self.selected as int, len as int);
        }
        let next = if up {
            if cur == 0 {
                len - 1
            } else {
                cur - 1
            }
        } else {
            if cur + 1 == len {
                0
            } else {
                cur + 1
            }
        };
        proof {
            let s = self.selected as int;
            let d: int = if up { -1int } else { 1int };
            let l = len as int;
            assert((s + d) % l == ((s % l) + (d % l)) % l);
            if up {
                if l == 1 {
                    assert(d % l == 0) by (nonlinear_arith)
                        requires d == -1, l == 1;
                    assert((s % l + 0) % l == 0) by (nonlinear_arith)
                        requires l == 1;
                } else {
                    assert(d % l == l - 1) by (nonlinear_arith)
                        requires d == -1, l > 1;
                    assert(((s % l) + (l - 1)) % l == next as int) by (nonlinear_arith)
                        requires 0 <= s % l < l, next as int == if s % l == 0 { l - 1 } else { s % l - 1 }, l > 1;
                }
            } else {
                if l == 1 {
                    assert(((s % l) + (d % l)) % l == 0) by (nonlinear_arith)
                        requires l == 1;
                } else {
                    assert(d % l == 1) by (nonlinear_arith)
                        requires d == 1, l > 1;
                    assert(((s % l) + 1) % l == next as int) by (nonlinear_arith)
                        requires 0 <= s % l < l, next as int == if s % l + 1 == l { 0 } else { s % l + 1 }, l > 1;
                }
            }
        }
        self.selected = next;
    }

    /// Keep `selected` within the visible list bounds after a filter change.
    pub fn clamp_selection(&mut self)
        ensures
            final(self)@ == old(self)@.clamped(),
            final(self).clock == old(self).clock,
            final(self).projects == old(self).projects,
            final(self).filter == old(self).filter,
            final(self).toast == old(self).toast,
            final(self).pending_delete == old(self).pending_delete,
    {
        let len = self.visible_count();
        if len == 0 {
            self.selected = 0;
        } else if self.selected >= len {
            self.selected = len - 1;
        }
    }
}

/// Every visible index is a valid physical index, and they increase.
pub proof fn lemma_visible_bounds(
    ps: Seq<ProjectStatusView>,
    query: Seq<char>,
    owner: Option<Seq<char>>,
    n: nat,
)
    requires
        n <= ps.len(),
        n <= usize::MAX,
    ensures
        visible_upto(ps, query, owner, n).len() <= n,
        forall|k: int|
            0 <= k < visible_upto(ps, query, owner, n).len() ==> #[trigger] visible_upto(
                ps,
                query,
                owner,
                n,
            )[k] < n,
        forall|k1: int, k2: int|
            0 <= k1 < k2 < visible_upto(ps, query, owner, n).len() ==> #[trigger] visible_upto(
                ps,
                query,
                owner,
                n,
            )[k1] < #[trigger] visible_upto(ps, query, owner, n)[k2],
    decreases n,
{
    if n > 0 {
        lemma_visible_bounds(ps, query, owner, (n - 1) as nat);
        let prev = visible_upto(ps, query, owner, (n - 1) as nat);
        let cur = visible_upto(ps, query, owner, n);
        assert forall|k1: int, k2: int| 0 <= k1 < k2 < cur.len() implies #[trigger] cur[k1]
            < #[trigger] cur[k2] by {
            if k2 < prev.len() {
                assert(cur[k1] == prev[k1] && cur[k2] == prev[k2]);
            } else {
                assert(cur[k1] == prev[k1]);
                assert(cur[k2] == (n - 1) as usize);
                assert(prev[k1] < n - 1);
            }
        }
    }
}

} // verus!

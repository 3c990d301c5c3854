//! Reducer steps that start fetches and record their results: manual
//! refresh, scheduled polling, fetch completion, and cache hydration.

use vstd::prelude::*;
use super::state::{clamp_sel, AppState, AppView, Command, CommandView};
use super::toast::{fresh_toast, Toast, ToastKind};
use crate::domain::poll::PollIntervals;
use crate::domain::project::{slug_of, Project};
use crate::domain::project_status::{
    display_sorted, sat_i64, sort_for_display, ties, views, LoadState, LoadView, ProjectStatus,
    ProjectStatusView, MAX_DELTA_SECS,
};
use crate::domain::run::{duplicate_runs, WorkflowRun};
use crate::ports::{CachedProject, CachedView, Clock, ProviderError};
use crate::text::{decimal, push_decimal, push_str, str_eq};

verus! {

/// The indices among `idx` whose project satisfies `pred`, in order.
pub open spec fn select(
    ps: Seq<ProjectStatusView>,
    idx: Seq<usize>,
    pred: spec_fn(ProjectStatusView) -> bool,
) -> Seq<usize>
    decreases idx.len(),
{
    if idx.len() == 0 {
        seq![]
    } else {
        let r = select(ps, idx.drop_last(), pred);
        if pred(ps[idx.last() as int]) {
            r.push(idx.last())
        } else {
            r
        }
    }
}

/// `a + b` saturating at `usize::MAX`.
pub open spec fn sat_add(a: usize, b: nat) -> usize {
    if a + b > usize::MAX {
        usize::MAX
    } else {
        (a + b) as usize
    }
}

/// `a - 1` saturating at zero.
pub open spec fn sat_dec(a: usize) -> usize {
    if a == 0 {
        0
    } else {
        (a - 1) as usize
    }
}

/// Toast text when a manual refresh starts.
pub open spec fn refreshing_msg(n: nat) -> Seq<char> {
    "Refreshing "@ + decimal(n) + " project(s)…"@
}

/// Toast text when a rate limit pauses polling.
pub open spec fn rate_limit_msg(secs: nat) -> Seq<char> {
    "GitHub rate limit hit — pausing polling "@ + decimal(secs) + "s"@
}

/// Toast text summarizing a settled batch.
pub open spec fn health_msg(failures: nat) -> Seq<char> {
    if failures > 0 {
        decimal(failures) + " project(s) failing"@
    } else {
        "All projects healthy"@
    }
}

/// Pause applied after a rate-limit response (seconds).
pub open spec fn cooldown_secs(iv: PollIntervals) -> u64 {
    if iv.rate_limit_cooldown <= MAX_DELTA_SECS {
        iv.rate_limit_cooldown
    } else {
        60
    }
}

/// Number of projects whose latest run is failing.
pub open spec fn count_failing(ps: Seq<ProjectStatusView>) -> nat
    decreases ps.len(),
{
    if ps.len() == 0 {
        0
    } else {
        count_failing(ps.drop_last()) + if (ps.last().spec_headline_state() matches Some(s)
            && s.spec_is_failure()) {
            1nat
        } else {
            0nat
        }
    }
}

/// The `(index, project)` pairs a fetch of `targets` hands to the runtime.
pub open spec fn fetch_pairs(ps: Seq<ProjectStatusView>, targets: Seq<usize>) -> Seq<
    (usize, Project),
> {
    targets.map_values(|i: usize| (i, ps[i as int].project))
}

/// The indices a fetch of `indices` actually starts, in order: each index
/// that is in range, not already `Loading`, and not started earlier in the
/// same call.
pub open spec fn start_targets(ps: Seq<ProjectStatusView>, indices: Seq<usize>) -> Seq<usize>
    decreases indices.len(),
{
    if indices.len() == 0 {
        Seq::empty()
    } else {
        let t = start_targets(ps, indices.drop_last());
        let i = indices.last();
        if i < ps.len() && !(ps[i as int].load is Loading) && !t.contains(i) {
            t.push(i)
        } else {
            t
        }
    }
}

/// Indices that are in range, strictly increasing and idle are all started.
pub proof fn lemma_start_targets_all(ps: Seq<ProjectStatusView>, indices: Seq<usize>)
    requires
        forall|k: int| 0 <= k < indices.len() ==> #[trigger] indices[k] < ps.len(),
        forall|k1: int, k2: int|
            0 <= k1 < k2 < indices.len() ==> #[trigger] indices[k1] < #[trigger] indices[k2],
        forall|k: int| 0 <= k < indices.len() ==> !(ps[#[trigger] indices[k] as int].load is Loading),
    ensures
        start_targets(ps, indices) == indices,
    decreases indices.len(),
{
    if indices.len() > 0 {
        let d = indices.drop_last();
        lemma_start_targets_all(ps, d);
        let i = indices.last();
        assert(indices[indices.len() - 1] == i);
        if d.contains(i) {
            let m = choose|m: int| 0 <= m < d.len() && d[m] == i;
            assert(indices[m] < indices[indices.len() - 1]);
        }
        assert(d.push(i) =~= indices);
    }
}

/// View of a fetch outcome.
pub open spec fn result_view(r: Result<Vec<WorkflowRun>, ProviderError>) -> Result<
    Seq<WorkflowRun>,
    ProviderError,
> {
    match r {
        Ok(v) => Ok(v@),
        Err(e) => Err(e),
    }
}

impl AppView {
    /// `targets` marked `Loading` with the attempt time `now`, and counted in flight.
    pub open spec fn fetch_started(self, targets: Seq<usize>, now: i64) -> AppView {
        AppView {
            projects: Seq::new(
                self.projects.len(),
                |j: int|
                    if targets.contains(j as usize) {
                        ProjectStatusView {
                            load: LoadView::Loading,
                            last_attempt_at: Some(now),
                            ..self.projects[j]
                        }
                    } else {
                        self.projects[j]
                    },
            ),
            inflight: sat_add(self.inflight, targets.len()),
            ..self
        }
    }

    /// Visible projects a manual refresh fetches: those not already in flight.
    pub open spec fn refresh_targets(self) -> Seq<usize> {
        select(self.projects, self.visible(), |p: ProjectStatusView| !(p.load is Loading))
    }

    /// Visible projects the scheduler fetches at `now`: those due.
    pub open spec fn poll_targets(self, now: i64) -> Seq<usize> {
        select(
            self.projects,
            self.visible(),
            |p: ProjectStatusView| p.spec_is_due(self.intervals, now),
        )
    }

    /// State after a manual refresh at `now`.
    pub open spec fn refreshed(self, now: i64) -> AppView {
        if self.is_rate_limited(now) {
            self.with_toast("Rate limited — refresh paused briefly"@, ToastKind::Warning)
        } else if self.refresh_targets().len() == 0 {
            self.with_toast(
                if self.inflight > 0 {
                    "Already refreshing…"@
                } else {
                    "Nothing visible to refresh"@
                },
                ToastKind::Warning,
            )
        } else {
            self.with_toast(
                refreshing_msg(self.refresh_targets().len()),
                ToastKind::Info,
            ).fetch_started(self.refresh_targets(), now)
        }
    }

    /// Command issued by a manual refresh at `now`.
    pub open spec fn refresh_command(self, now: i64) -> CommandView {
        if self.is_rate_limited(now) || self.refresh_targets().len() == 0 {
            CommandView::Nothing
        } else {
            CommandView::Fetch(fetch_pairs(self.projects, self.refresh_targets()))
        }
    }

    /// State after a scheduled poll at `now`.
    pub open spec fn polled(self, now: i64) -> AppView {
        if self.is_rate_limited(now) || self.poll_targets(now).len() == 0 {
            self
        } else {
            self.fetch_started(self.poll_targets(now), now)
        }
    }

    /// Command issued by a scheduled poll at `now`.
    pub open spec fn poll_command(self, now: i64) -> CommandView {
        if self.is_rate_limited(now) || self.poll_targets(now).len() == 0 {
            CommandView::Nothing
        } else {
            CommandView::Fetch(fetch_pairs(self.projects, self.poll_targets(now)))
        }
    }

    /// Whether recording `result` for `index` triggers the rate-limit pause.
    pub open spec fn hits_rate_limit(
        self,
        index: usize,
        result: Result<Seq<WorkflowRun>, ProviderError>,
    ) -> bool {
        index < self.projects.len() && (result matches Err(e) && e is RateLimited)
    }

    /// State after recording `result` for the project at `index` at `now`,
    /// before any end-of-batch re-sort.
    pub open spec fn fetch_recorded(
        self,
        index: usize,
        result: Result<Seq<WorkflowRun>, ProviderError>,
        now: i64,
    ) -> AppView {
        let s1 = if index < self.projects.len() {
            let old = self.projects[index as int];
            match result {
                Ok(runs) => AppView {
                    projects: self.projects.update(
                        index as int,
                        ProjectStatusView {
                            consecutive_errors: 0,
                            load: LoadView::Loaded { runs: runs, fetched_at: now },
                            ..old
                        },
                    ),
                    cache_dirty: true,
                    ..self
                },
                Err(e) => AppView {
                    projects: self.projects.update(
                        index as int,
                        ProjectStatusView {
                            consecutive_errors: if old.consecutive_errors == u32::MAX {
                                u32::MAX
                            } else {
                                (old.consecutive_errors + 1) as u32
                            },
                            load: LoadView::Failed { message: e.spec_message() },
                            ..old
                        },
                    ),
                    ..self
                },
            }
        } else {
            self
        };
        let s2 = AppView { inflight: sat_dec(s1.inflight), ..s1 };
        if self.hits_rate_limit(index, result) {
            AppView {
                rate_limited_until: Some(sat_i64(now + cooldown_secs(s2.intervals))),
                toast: Some(
                    fresh_toast(
                        rate_limit_msg(cooldown_secs(s2.intervals) as nat),
                        ToastKind::Warning,
                    ),
                ),
                ..s2
            }
        } else {
            s2
        }
    }
}

impl<C: Clock> AppState<C> {
    /// Mark the given physical indices as loading, stamp the attempt time, and
    /// emit a [`Command::Fetch`] carrying the `(index, project)` pairs.
    /// An index out of range, already `Loading`, or repeated is skipped.
    pub(crate) fn start_fetch(&mut self, indices: Vec<usize>, now: i64) -> (cmd: Command)
        ensures
            final(self)@ == old(self)@.fetch_started(start_targets(old(self)@.projects, indices@), now),
            cmd@ == CommandView::Fetch(
                fetch_pairs(old(self)@.projects, start_targets(old(self)@.projects, indices@)),
            ),
            final(self).clock == old(self).clock,
    {
        let ghost s0 = self@;
        let mut targets: Vec<(usize, Project)> = Vec::new();
        let mut k: usize = 0;
        while k < indices.len()
            invariant
                0 <= k <= indices@.len(),
                self.projects@.len() == s0.projects.len(),
                self@ == (AppView { projects: self@.projects, ..s0 }),
                forall|j: int|
                    0 <= j < s0.projects.len() ==> #[trigger] self@.projects[j] == if start_targets(
                        s0.projects,
                        indices@.take(k as int),
                    ).contains(j as usize) {
                        ProjectStatusView {
                            load: LoadView::Loading,
                            last_attempt_at: Some(now),
                            ..s0.projects[j]
                        }
                    } else {
                        s0.projects[j]
                    },
                targets@ == fetch_pairs(s0.projects, start_targets(s0.projects, indices@.take(k as int))),
                self.clock == old(self).clock,
            decreases indices@.len() - k,
        {
            let i = indices[k];
            let ghost t = start_targets(s0.projects, indices@.take(k as int));
            assert(indices@.take(k + 1).drop_last() =~= indices@.take(k as int));
            assert(indices@.take(k + 1).last() == i);
            if i < self.projects.len() {
                let ghost prev = self.projects@;
                assert(views(prev)[i as int] == prev[i as int]@);
                let loading = matches!(self.projects[i].load, LoadState::Loading);
                assert(loading == (t.contains(i) || s0.projects[i as int].load is Loading));
                if !loading {
                    assert(start_targets(s0.projects, indices@.take(k + 1)) == t.push(i));
                    let mut st = self.projects.remove(i);
                    st.load = LoadState::Loading;
                    st.last_attempt_at = Some(now);
                    let p = st.project.duplicate();
                    let ghost st_new = st;
                    self.projects.insert(i, st);
                    targets.push((i, p));
                    proof {
                        let t2 = t.push(i);
                        assert(self.projects@ =~= prev.update(i as int, st_new));
                        assert forall|j: int| 0 <= j < s0.projects.len() implies #[trigger] self@.projects[j]
                            == if t2.contains(j as usize) {
                            ProjectStatusView {
                                load: LoadView::Loading,
                                last_attempt_at: Some(now),
                                ..s0.projects[j]
                            }
                        } else {
                            s0.projects[j]
                        } by {
                            assert(views(self.projects@)[j] == self.projects@[j]@);
                            if j == i {
                                assert(t2[t.len() as int] == i);
                                assert(t2.contains(j as usize));
                            } else {
                                assert(j as usize != i);
                                assert(views(prev)[j] == prev[j]@);
                                assert(t2.contains(j as usize) == t.contains(j as usize)) by {
                                    if t2.contains(j as usize) {
                                        let m = choose|m: int| 0 <= m < t2.len() && t2[m] == j as usize;
                                        assert(m < t.len());
                                        assert(t[m] == j as usize);
                                    }
                                    if t.contains(j as usize) {
                                        let m = choose|m: int| 0 <= m < t.len() && t[m] == j as usize;
                                        assert(t2[m] == j as usize);
                                    }
                                }
                            }
                        }
                        assert(targets@ =~= fetch_pairs(s0.projects, t2));
                    }
                } else {
                    assert(start_targets(s0.projects, indices@.take(k + 1)) == t);
                }
            } else {
                assert(start_targets(s0.projects, indices@.take(k + 1)) == t);
            }
            k = k + 1;
        }
        assert(indices@.take(indices@.len() as int) =~= indices@);
        self.inflight = self.inflight.saturating_add(targets.len());
        assert(self@.projects =~= s0.fetch_started(start_targets(s0.projects, indices@), now).projects);
        Command::Fetch(targets)
    }
}

/// Selected indices keep the order and bounds of `idx` and satisfy `pred`.
pub proof fn lemma_select_props(
    ps: Seq<ProjectStatusView>,
    idx: Seq<usize>,
    pred: spec_fn(ProjectStatusView) -> bool,
    n: nat,
)
    requires
        forall|k: int| 0 <= k < idx.len() ==> #[trigger] idx[k] < n,
        forall|k1: int, k2: int| 0 <= k1 < k2 < idx.len() ==> #[trigger] idx[k1] < #[trigger] idx[k2],
    ensures
        forall|k: int| 0 <= k < select(ps, idx, pred).len() ==> #[trigger] select(ps, idx, pred)[k] < n,
        forall|k: int|
            0 <= k < select(ps, idx, pred).len() ==> pred(ps[#[trigger] select(ps, idx, pred)[k] as int]),
        forall|k1: int, k2: int|
            0 <= k1 < k2 < select(ps, idx, pred).len() ==> #[trigger] select(ps, idx, pred)[k1]
                < #[trigger] select(ps, idx, pred)[k2],
        forall|k: int|
            0 <= k < select(ps, idx, pred).len() ==> #[trigger] idx.contains(select(ps, idx, pred)[k]),
    decreases idx.len(),
{
    if idx.len() > 0 {
        let d = idx.drop_last();
        lemma_select_props(ps, d, pred, n);
        let r = select(ps, d, pred);
        let cur = select(ps, idx, pred);
        assert forall|k: int| 0 <= k < r.len() implies #[trigger] r[k] < idx.last() by {
            assert(d.contains(r[k]));
            let m = choose|m: int| 0 <= m < d.len() && d[m] == r[k];
            assert(idx[m] < idx[idx.len() - 1]);
        }
        assert forall|k: int| 0 <= k < cur.len() implies #[trigger] idx.contains(cur[k]) by {
            if k < r.len() {
                assert(cur[k] == r[k]);
                assert(d.contains(r[k]));
                let m = choose|m: int| 0 <= m < d.len() && d[m] == r[k];
                assert(idx[m] == r[k]);
            } else {
                assert(idx[idx.len() - 1] == cur[k]);
            }
        }
        assert forall|k1: int, k2: int| 0 <= k1 < k2 < cur.len() implies #[trigger] cur[k1]
            < #[trigger] cur[k2] by {
            if k2 >= r.len() {
                assert(cur[k1] == r[k1]);
            } else {
                assert(cur[k1] == r[k1] && cur[k2] == r[k2]);
            }
        }
        assert forall|k: int| 0 <= k < cur.len() implies pred(ps[#[trigger] cur[k] as int]) by {
            if k < r.len() {
                assert(cur[k] == r[k]);
            }
        }
        assert forall|k: int| 0 <= k < cur.len() implies #[trigger] cur[k] < n by {
            if k < r.len() {
                assert(cur[k] == r[k]);
            }
        }
    }
}

impl<C: Clock> AppState<C> {
    /// Visible projects not already in flight.
    fn refresh_candidates(&self) -> (r: Vec<usize>)
        ensures
            r@ == self@.refresh_targets(),
    {
        let vis = self.visible_indices();
        proof {
            assert(self@.projects.len() == self.projects.len());
            super::state::lemma_visible_bounds(
                self@.projects,
                self@.query,
                self@.owner_filter,
                self@.projects.len(),
            );
        }
        let mut r: Vec<usize> = Vec::new();
        let mut k: usize = 0;
        while k < vis.len()
            invariant
                k <= vis@.len(),
                vis@ == self@.visible(),
                forall|m: int| 0 <= m < vis@.len() ==> #[trigger] vis@[m] < self.projects@.len(),
                r@ == select(
                    self@.projects,
                    vis@.take(k as int),
                    |p: ProjectStatusView| !(p.load is Loading),
                ),
            decreases vis@.len() - k,
        {
            let i = vis[k];
            assert(vis@.take(k + 1).drop_last() =~= vis@.take(k as int));
            assert(self@.projects[i as int] == self.projects@[i as int]@);
            if !matches!(self.projects[i].load, LoadState::Loading) {
                r.push(i);
            }
            k = k + 1;
        }
        assert(vis@.take(vis@.len() as int) =~= vis@);
        r
    }

    /// Visible projects that are due at `now`.
    fn poll_candidates(&self, now: i64) -> (r: Vec<usize>)
        ensures
            r@ == self@.poll_targets(now),
    {
        let vis = self.visible_indices();
        proof {
            assert(self@.projects.len() == self.projects.len());
            super::state::lemma_visible_bounds(
                self@.projects,
                self@.query,
                self@.owner_filter,
                self@.projects.len(),
            );
        }
        let mut r: Vec<usize> = Vec::new();
        let mut k: usize = 0;
        while k < vis.len()
            invariant
                k <= vis@.len(),
                vis@ == self@.visible(),
                forall|m: int| 0 <= m < vis@.len() ==> #[trigger] vis@[m] < self.projects@.len(),
                r@ == select(
                    self@.projects,
                    vis@.take(k as int),
                    |p: ProjectStatusView| p.spec_is_due(self@.intervals, now),
                ),
            decreases vis@.len() - k,
        {
            let i = vis[k];
            assert(vis@.take(k + 1).drop_last() =~= vis@.take(k as int));
            assert(self@.projects[i as int] == self.projects@[i as int]@);
            if self.projects[i].is_due(&self.intervals, now) {
                r.push(i);
            }
            k = k + 1;
        }
        assert(vis@.take(vis@.len() as int) =~= vis@);
        r
    }

    /// Manual refresh of every visible project at `now` (the `r` key). Ignores
    /// due times, skips anything already in flight, and respects an active
    /// rate-limit cooldown.
    pub fn refresh_visible_at(&mut self, now: i64) -> (cmd: Command)
        ensures
            final(self)@ == old(self)@.refreshed(now),
            cmd@ == old(self)@.refresh_command(now),
            final(self).clock == old(self).clock,
    {
        if self.is_rate_limited(now) {
            self.toast = Some(Toast::warning("Rate limited — refresh paused briefly"));
            return Command::Nothing;
        }
        let targets = self.refresh_candidates();
        if targets.len() == 0 {
            let msg = if self.is_loading() {
                "Already refreshing…"
            } else {
                "Nothing visible to refresh"
            };
            self.toast = Some(Toast::warning(msg));
            return Command::Nothing;
        }
        let mut msg = String::new();
        push_str(&mut msg, "Refreshing ");
        push_decimal(&mut msg, targets.len() as u64);
        push_str(&mut msg, " project(s)…");
        assert(msg@ =~= refreshing_msg(targets@.len()));
        proof {
            assert(self@.projects.len() == self.projects.len());
            super::state::lemma_visible_bounds(
                self@.projects,
                self@.query,
                self@.owner_filter,
                self@.projects.len(),
            );
            lemma_select_props(
                self@.projects,
                self@.visible(),
                |p: ProjectStatusView| !(p.load is Loading),
                self@.projects.len(),
            );
        }
        self.toast = Some(Toast::info(msg.as_str()));
        proof {
            lemma_start_targets_all(self@.projects, targets@);
        }
        self.start_fetch(targets, now)
    }

    /// Manual refresh of every visible project, at the clock's current time.
    pub fn force_refresh_visible(&mut self) -> (cmd: Command)
        ensures
            exists|now: i64|
                old(self).clock.can_read(now) && final(self)@ == old(self)@.refreshed(now) && cmd@ == old(self)@.refresh_command(now),
            final(self).clock == old(self).clock,
    {
        let now = self.now();
        self.refresh_visible_at(now)
    }

    /// Scheduler-driven poll at `now`: fetch only visible projects that are
    /// *due* by their adaptive tier. Silent (no toast).
    pub fn poll_due_at(&mut self, now: i64) -> (cmd: Command)
        ensures
            final(self)@ == old(self)@.polled(now),
            cmd@ == old(self)@.poll_command(now),
            final(self).clock == old(self).clock,
    {
        if self.is_rate_limited(now) {
            return Command::Nothing;
        }
        let targets = self.poll_candidates(now);
        if targets.len() == 0 {
            return Command::Nothing;
        }
        proof {
            assert(self@.projects.len() == self.projects.len());
            super::state::lemma_visible_bounds(
                self@.projects,
                self@.query,
                self@.owner_filter,
                self@.projects.len(),
            );
            lemma_select_props(
                self@.projects,
                self@.visible(),
                |p: ProjectStatusView| p.spec_is_due(self@.intervals, now),
                self@.projects.len(),
            );
        }
        proof {
            lemma_start_targets_all(self@.projects, targets@);
        }
        self.start_fetch(targets, now)
    }

    /// Scheduler-driven poll at the clock's current time.
    pub fn poll_due(&mut self) -> (cmd: Command)
        ensures
            exists|now: i64|
                old(self).clock.can_read(now) && final(self)@ == old(self)@.polled(now) && cmd@ == old(self)@.poll_command(now),
            final(self).clock == old(self).clock,
    {
        let now = self.now();
        self.poll_due_at(now)
    }
}

/// `new` is `old` with its projects re-sorted into display order (projects
/// that rank level keep their relative order) and the selection clamped;
/// nothing else changes.
pub open spec fn resorted(old: AppView, new: AppView) -> bool {
    &&& new.projects.len() == old.projects.len()
    &&& new.projects.to_multiset() == old.projects.to_multiset()
    &&& display_sorted(new.projects)
    &&& forall|x: ProjectStatusView| #[trigger] ties(new.projects, x) == ties(old.projects, x)
    &&& new == AppView {
        projects: new.projects,
        selected: clamp_sel(old.selected, new.visible_count()),
        ..old
    }
}

/// Effect of a completed fetch of `index` with `result` at `now`: the result
/// is recorded; once the batch settles (nothing left in flight) the list is
/// re-sorted, the selection clamped, a health summary shown (unless a rate
/// limit was just hit) and a cache write requested if run data changed.
pub open spec fn fetch_applied(
    old: AppView,
    new: AppView,
    cmd: CommandView,
    index: usize,
    result: Result<Seq<WorkflowRun>, ProviderError>,
    now: i64,
) -> bool {
    let mid = old.fetch_recorded(index, result, now);
    if mid.inflight > 0 {
        new == mid && cmd == CommandView::Nothing
    } else {
        let failures = count_failing(new.projects);
        let sorted = AppView { projects: new.projects, selected: new.selected, ..mid };
        &&& resorted(mid, sorted)
        &&& new == AppView {
            toast: if old.hits_rate_limit(index, result) {
                mid.toast
            } else {
                Some(
                    fresh_toast(
                        health_msg(failures),
                        if failures > 0 {
                            ToastKind::Error
                        } else {
                            ToastKind::Success
                        },
                    ),
                )
            },
            cache_dirty: false,
            ..sorted
        }
        &&& cmd == if mid.cache_dirty {
            CommandView::PersistCache
        } else {
            CommandView::Nothing
        }
    }
}

impl<C: Clock> AppState<C> {
    /// Re-sort the projects into display order and clamp the selection.
    pub(crate) fn settle_order(&mut self)
        ensures
            resorted(old(self)@, final(self)@),
            final(self).clock == old(self).clock,
    {
        let mut ps: Vec<ProjectStatus> = Vec::new();
        std::mem::swap(&mut ps, &mut self.projects);
        self.projects = sort_for_display(ps);
        self.clamp_selection();
    }

    /// Number of projects whose latest run is failing.
    fn failing_count(&self) -> (r: usize)
        ensures
            r == count_failing(self@.projects),
    {
        let mut n: usize = 0;
        let mut i: usize = 0;
        while i < self.projects.len()
            invariant
                i <= self.projects@.len(),
                n == count_failing(self@.projects.take(i as int)),
                n <= i,
            decreases self.projects@.len() - i,
        {
            assert(self@.projects.take(i + 1).drop_last() =~= self@.projects.take(i as int));
            assert(self@.projects[i as int] == self.projects@[i as int]@);
            let failing = match self.projects[i].headline_state() {
                Some(st) => st.is_failure(),
                None => false,
            };
            if failing {
                n = n + 1;
            }
            i = i + 1;
        }
        assert(self@.projects.take(self.projects@.len() as int) =~= self@.projects);
        n
    }

    /// Record a background fetch result for the project at `index`.
    pub fn apply_fetch_result(
        &mut self,
        index: usize,
        result: Result<Vec<WorkflowRun>, ProviderError>,
        now: i64,
    ) -> (cmd: Command)
        ensures
            fetch_applied(old(self)@, final(self)@, cmd@, index, result_view(result), now),
            final(self).clock == old(self).clock,
    {
        let ghost rv = result_view(result);
        let ghost s0 = self@;
        let mut rate_limited = false;
        if index < self.projects.len() {
            let ghost prev = self.projects@;
            let mut st = self.projects.remove(index);
            match result {
                Ok(runs) => {
                    st.consecutive_errors = 0;
                    st.load = LoadState::Loaded { runs, fetched_at: now };
                    self.cache_dirty = true;
                },
                Err(e) => {
                    st.consecutive_errors = st.consecutive_errors.saturating_add(1);
                    rate_limited = e.is_rate_limited();
                    st.load = LoadState::Failed { message: e.message() };
                },
            }
            let ghost st_new = st;
            self.projects.insert(index, st);
            proof {
                assert(self.projects@ =~= prev.update(index as int, st_new));
                assert(views(self.projects@) =~= views(prev).update(index as int, st_new@));
            }
        }
        self.inflight = self.inflight.saturating_sub(1);
        assert(rate_limited == s0.hits_rate_limit(index, rv));
        if rate_limited {
            let cd = self.intervals.rate_limit_cooldown;
            let cooldown: u64 = if cd <= MAX_DELTA_SECS {
                cd
            } else {
                60
            };
            let until: i128 = (now as i128) + (cooldown as i128);
            let until: i64 = if until > i64::MAX as i128 {
                i64::MAX
            } else {
                until as i64
            };
            self.rate_limited_until = Some(until);
            let mut msg = String::new();
            push_str(&mut msg, "GitHub rate limit hit — pausing polling ");
            push_decimal(&mut msg, cooldown);
            push_str(&mut msg, "s");
            assert(msg@ =~= rate_limit_msg(cooldown as nat));
            self.toast = Some(Toast::warning(msg.as_str()));
        }
        assert(self@ == s0.fetch_recorded(index, rv, now));
        if self.inflight == 0 {
            self.settle_order();
            if !rate_limited {
                let failures = self.failing_count();
                if failures > 0 {
                    let mut msg = String::new();
                    push_decimal(&mut msg, failures as u64);
                    push_str(&mut msg, " project(s) failing");
                    assert(msg@ =~= health_msg(failures as nat));
                    self.toast = Some(Toast::error(msg.as_str()));
                } else {
                    self.toast = Some(Toast::success("All projects healthy"));
                }
            }
            if self.cache_dirty {
                self.cache_dirty = false;
                return Command::PersistCache;
            }
        }
        Command::Nothing
    }
}

/// Index of the last cached snapshot for `slug`, if any.
pub open spec fn cache_match(cached: Seq<CachedProject>, slug: Seq<char>) -> Option<int>
    decreases cached.len(),
{
    if cached.len() == 0 {
        None
    } else if cached.last().slug@ == slug {
        Some(cached.len() - 1)
    } else {
        cache_match(cached.drop_last(), slug)
    }
}

/// `p` loaded from its cached snapshot, when one matches its slug.
pub open spec fn hydrated_one(p: ProjectStatusView, cached: Seq<CachedProject>) -> ProjectStatusView {
    match cache_match(cached, slug_of(p.project.owner@, p.project.repo@)) {
        Some(k) => ProjectStatusView {
            project: p.project,
            load: LoadView::Loaded { runs: cached[k].runs@, fetched_at: cached[k].fetched_at },
            last_attempt_at: Some(cached[k].fetched_at),
            consecutive_errors: 0,
        },
        None => p,
    }
}

/// Snapshot of every loaded project, in list order.
pub open spec fn cache_snapshot(ps: Seq<ProjectStatusView>) -> Seq<CachedView>
    decreases ps.len(),
{
    if ps.len() == 0 {
        seq![]
    } else {
        let r = cache_snapshot(ps.drop_last());
        let p = ps.last();
        match p.load {
            LoadView::Loaded { runs, fetched_at } => r.push(
                CachedView {
                    slug: slug_of(p.project.owner@, p.project.repo@),
                    runs: runs,
                    fetched_at: fetched_at,
                },
            ),
            _ => r,
        }
    }
}

fn find_cached(cached: &[CachedProject], slug: &str) -> (r: Option<usize>)
    ensures
        match r {
            Some(k) => cache_match(cached@, slug@) == Some(k as int) && k < cached@.len(),
            None => cache_match(cached@, slug@) is None,
        },
{
    let mut k = cached.len();
    assert(cached@.take(k as int) =~= cached@);
    while k > 0
        invariant
            k <= cached@.len(),
            cache_match(cached@, slug@) == cache_match(cached@.take(k as int), slug@),
        decreases k,
    {
        assert(cached@.take(k as int).drop_last() =~= cached@.take(k - 1));
        if str_eq(cached[k - 1].slug.as_str(), slug) {
            return Some(k - 1);
        }
        k = k - 1;
    }
    None
}

impl<C: Clock> AppState<C> {
    /// Hydrate already-loaded projects from cached snapshots (matched by slug;
    /// the last snapshot for a slug wins). Unmatched projects are unchanged.
    /// The list is then re-sorted and the selection clamped.
    pub fn hydrate_from_cache(&mut self, cached: &[CachedProject])
        ensures
            resorted(
                AppView {
                    projects: old(self)@.projects.map_values(
                        |p: ProjectStatusView| hydrated_one(p, cached@),
                    ),
                    ..old(self)@
                },
                final(self)@,
            ),
            final(self).clock == old(self).clock,
    {
        let ghost s0 = self@;
        let ghost target = s0.projects.map_values(|p: ProjectStatusView| hydrated_one(p, cached@));
        let mut j: usize = 0;
        while j < self.projects.len()
            invariant
                j <= self.projects@.len(),
                self.projects@.len() == s0.projects.len(),
                target == s0.projects.map_values(|p: ProjectStatusView| hydrated_one(p, cached@)),
                self@ == (AppView { projects: self@.projects, ..s0 }),
                forall|m: int|
                    0 <= m < s0.projects.len() ==> #[trigger] self@.projects[m] == if m < j {
                        target[m]
                    } else {
                        s0.projects[m]
                    },
                self.clock == old(self).clock,
            decreases self.projects@.len() - j,
        {
            let slug = self.projects[j].project.slug();
            assert(self@.projects[j as int] == s0.projects[j as int]);
            assert(self.projects@[j as int]@ == s0.projects[j as int]);
            assert(target[j as int] == hydrated_one(s0.projects[j as int], cached@));
            match find_cached(cached, slug.as_str()) {
                Some(k) => {
                    let ghost prev = self.projects@;
                    let st = self.projects.remove(j);
                    let fresh = ProjectStatus::from_cache(
                        st.project,
                        duplicate_runs(&cached[k].runs),
                        cached[k].fetched_at,
                    );
                    let ghost f = fresh;
                    self.projects.insert(j, fresh);
                    proof {
                        assert(self.projects@ =~= prev.update(j as int, f));
                        assert(views(self.projects@) =~= views(prev).update(j as int, f@));
                    }
                },
                None => {},
            }
            j = j + 1;
        }
        assert(self@.projects =~= target);
        self.settle_order();
    }

    /// Snapshot the loaded projects as cache entries to persist.
    pub fn cache_entries(&self) -> (r: Vec<CachedProject>)
        ensures
            r@.map_values(|c: CachedProject| c@) == cache_snapshot(self@.projects),
    {
        let mut r: Vec<CachedProject> = Vec::new();
        let mut i: usize = 0;
        while i < self.projects.len()
            invariant
                i <= self.projects@.len(),
                r@.map_values(|c: CachedProject| c@) == cache_snapshot(self@.projects.take(i as int)),
            decreases self.projects@.len() - i,
        {
            assert(self@.projects.take(i + 1).drop_last() =~= self@.projects.take(i as int));
            assert(self@.projects[i as int] == self.projects@[i as int]@);
            let ghost before = r@;
            match &self.projects[i].load {
                LoadState::Loaded { runs, fetched_at } => {
                    let c = CachedProject {
                        slug: self.projects[i].project.slug(),
                        runs: duplicate_runs(runs),
                        fetched_at: *fetched_at,
                    };
                    r.push(c);
                    assert(r@.map_values(|c: CachedProject| c@) =~= before.map_values(
                        |c: CachedProject| c@,
                    ).push(c@));
                },
                _ => {},
            }
            i = i + 1;
        }
        assert(self@.projects.take(self.projects@.len() as int) =~= self@.projects);
        r
    }

    /// Open the selected project's latest run.
    pub(crate) fn open_selected(&mut self) -> (cmd: Command)
        ensures
            match old(self)@.open_target() {
                Some(url) => final(self)@ == old(self)@.with_toast(
                    "Opening run in browser…"@,
                    ToastKind::Success,
                ) && cmd@ == CommandView::OpenUrl(url),
                None => final(self)@ == old(self)@.with_toast(
                    "No run to open for this project"@,
                    ToastKind::Warning,
                ) && cmd@ == CommandView::Nothing,
            },
            final(self).clock == old(self).clock,
    {
        let url = match self.selected_status() {
            Some(st) => match st.latest_run() {
                Some(run) => Some(run.html_url.clone()),
                None => None,
            },
            None => None,
        };
        match url {
            Some(u) => {
                self.toast = Some(Toast::success("Opening run in browser…"));
                Command::OpenUrl(u)
            },
            None => {
                self.toast = Some(Toast::warning("No run to open for this project"));
                Command::Nothing
            },
        }
    }
}

} // verus!

//! Properties of the reducer that hold across every action and state.

use vstd::prelude::*;
use super::action::Action;
use super::delete::{keep_views, survives};
use super::fetch::{cooldown_secs, fetch_applied, result_view, select, sat_add, lemma_select_props};
use super::state::{lemma_visible_bounds, visible_upto, AppView, CommandView, InputMode};
use super::update::reduces;
use crate::domain::project_status::{sat_i64, LoadView, ProjectStatusView};

verus! {

/// Visibility depends only on the projects themselves, not on their load state.
pub proof fn lemma_visible_ignores_load(
    a: Seq<ProjectStatusView>,
    b: Seq<ProjectStatusView>,
    query: Seq<char>,
    owner: Option<Seq<char>>,
    n: nat,
)
    requires
        a.len() == b.len(),
        n <= a.len(),
        forall|j: int| 0 <= j < a.len() ==> #[trigger] a[j].project == b[j].project,
    ensures
        visible_upto(a, query, owner, n) == visible_upto(b, query, owner, n),
    decreases n,
{
    if n > 0 {
        lemma_visible_ignores_load(a, b, query, owner, (n - 1) as nat);
        assert(a[n - 1].project == b[n - 1].project);
    }
}

/// Every index of `idx` satisfying `pred` is selected.
pub proof fn lemma_select_complete(
    ps: Seq<ProjectStatusView>,
    idx: Seq<usize>,
    pred: spec_fn(ProjectStatusView) -> bool,
)
    ensures
        forall|k: int|
            0 <= k < idx.len() && pred(ps[idx[k] as int]) ==> #[trigger] select(
                ps,
                idx,
                pred,
            ).contains(idx[k]),
    decreases idx.len(),
{
    if idx.len() > 0 {
        let d = idx.drop_last();
        lemma_select_complete(ps, d, pred);
        let r = select(ps, d, pred);
        let cur = select(ps, idx, pred);
        assert forall|k: int| 0 <= k < idx.len() && pred(ps[idx[k] as int]) implies #[trigger] cur.contains(
            idx[k],
        ) by {
            if k < d.len() {
                assert(d[k] == idx[k]);
                assert(r.contains(d[k]));
                let m = choose|m: int| 0 <= m < r.len() && r[m] == d[k];
                if pred(ps[idx.last() as int]) {
                    assert(cur[m] == r[m]);
                } else {
                    assert(cur == r);
                }
            } else {
                assert(cur[cur.len() - 1] == idx[k]);
            }
        }
    }
}

/// The selection stays inside the visible list whatever action is reduced:
/// every transition either leaves the list and selection alone, or clamps
/// the selection to the new list.
pub proof fn law_update_keeps_selection_in_bounds(
    old: AppView,
    action: Action,
    now: i64,
    new: AppView,
    cmd: CommandView,
)
    requires
        old.selection_in_bounds(),
        old.projects.len() <= usize::MAX,
        reduces(old, action, now, new, cmd),
    ensures
        new.selection_in_bounds(),
{
    match action {
        Action::Up | Action::Down => {
            let len = old.visible_count() as int;
            if len > 0 {
                let d: int = if action is Up { -1 } else { 1 };
                vstd::arithmetic::div_mod::lemma_mod_bound(old.selected + d, len);
            }
        },
        Action::Refresh => {
            if !old.is_rate_limited(now) && old.refresh_targets().len() > 0 {
                lemma_visible_ignores_load(
                    old.projects,
                    new.projects,
                    old.query,
                    old.owner_filter,
                    old.projects.len(),
                );
            }
        },
        Action::PollDue => {
            if !old.is_rate_limited(now) && old.poll_targets(now).len() > 0 {
                lemma_visible_ignores_load(
                    old.projects,
                    new.projects,
                    old.query,
                    old.owner_filter,
                    old.projects.len(),
                );
            }
        },
        Action::FetchCompleted { index, result } => {
            let mid = old.fetch_recorded(index, result_view(result), now);
            lemma_visible_ignores_load(
                old.projects,
                mid.projects,
                old.query,
                old.owner_filter,
                old.projects.len(),
            );
        },
        _ => {},
    }
}

/// A manual refresh fetches exactly the visible projects that are not
/// already in flight: nothing is fetched twice, nothing idle is skipped.
pub proof fn law_refresh_skips_in_flight(s: AppView)
    requires
        s.projects.len() <= usize::MAX,
    ensures
        forall|k: int|
            0 <= k < s.refresh_targets().len() ==> s.visible().contains(
                #[trigger] s.refresh_targets()[k],
            ) && !(s.projects[s.refresh_targets()[k] as int].load is Loading),
        forall|k: int|
            0 <= k < s.visible().len() && !(s.projects[s.visible()[k] as int].load is Loading)
                ==> #[trigger] s.refresh_targets().contains(s.visible()[k]),
{
    let pred = |p: ProjectStatusView| !(p.load is Loading);
    lemma_visible_bounds(s.projects, s.query, s.owner_filter, s.projects.len());
    lemma_select_props(s.projects, s.visible(), pred, s.projects.len());
    lemma_select_complete(s.projects, s.visible(), pred);
}

/// Starting a fetch marks every target `Loading` with the attempt time and
/// counts each of them in flight once; other projects are untouched.
pub proof fn law_fetch_start_marks_targets(s: AppView, targets: Seq<usize>, now: i64)
    requires
        forall|k: int| 0 <= k < targets.len() ==> #[trigger] targets[k] < s.projects.len(),
    ensures
        forall|k: int|
            0 <= k < targets.len() ==> (#[trigger] s.fetch_started(targets, now).projects[targets[k] as int]).load
                is Loading,
        forall|j: int|
            0 <= j < s.projects.len() && !targets.contains(j as usize) ==> #[trigger] s.fetch_started(
                targets,
                now,
            ).projects[j] == s.projects[j],
        s.fetch_started(targets, now).inflight == sat_add(s.inflight, targets.len()),
{
    assert forall|k: int| 0 <= k < targets.len() implies (#[trigger] s.fetch_started(
        targets,
        now,
    ).projects[targets[k] as int]).load is Loading by {
        assert(targets.contains(targets[k]));
    }
}

/// While a rate-limit cooldown is running, neither polling nor a manual
/// refresh fetches anything, and polling leaves the state untouched.
pub proof fn law_rate_limit_pauses_fetching(s: AppView, now: i64)
    requires
        s.is_rate_limited(now),
    ensures
        s.polled(now) == s,
        s.poll_command(now) == CommandView::Nothing,
        s.refresh_command(now) == CommandView::Nothing,
{
}

/// After a rate-limited response, fetching stays paused for exactly the
/// configured cooldown (saturating at the end of time).
pub proof fn law_rate_limit_window(
    old: AppView,
    index: usize,
    result: Result<Vec<crate::domain::run::WorkflowRun>, crate::ports::ProviderError>,
    now: i64,
    new: AppView,
    cmd: CommandView,
    later: i64,
)
    requires
        fetch_applied(old, new, cmd, index, result_view(result), now),
        old.hits_rate_limit(index, result_view(result)),
    ensures
        new.is_rate_limited(later) <==> later < sat_i64(now + cooldown_secs(old.intervals)),
{
}

/// Confirming a delete removes exactly the projects the prompt named and
/// keeps every other project, in order; the list is persisted only when
/// something was actually removed.
pub proof fn law_confirm_delete_removes_exactly_matching(s: AppView)
    requires
        s.pending_delete is Some,
    ensures
        forall|i: int|
            0 <= i < s.delete_confirmed().projects.len() ==> (survives(s.pending_delete->0))(
                #[trigger] s.delete_confirmed().projects[i],
            ),
        forall|i: int|
            0 <= i < s.projects.len() && (survives(s.pending_delete->0))(s.projects[i])
                ==> #[trigger] s.delete_confirmed().projects.contains(s.projects[i]),
        s.delete_command() == CommandView::PersistProjects <==> exists|i: int|
            0 <= i < s.projects.len() && !(survives(s.pending_delete->0))(#[trigger] s.projects[i]),
        s.delete_confirmed().pending_delete is None,
{
    let pd = s.pending_delete->0;
    let keep = survives(pd);
    lemma_keep_props(s.projects, keep);
    let kept = keep_views(s.projects, keep);
    if kept.len() == s.projects.len() {
        assert forall|i: int| 0 <= i < s.projects.len() implies keep(
            #[trigger] s.projects[i],
        ) by {
            assert(kept == s.projects);
        }
    } else {
        assert(exists|i: int| 0 <= i < s.projects.len() && !keep(#[trigger] s.projects[i])) by {
            if forall|i: int| 0 <= i < s.projects.len() ==> keep(#[trigger] s.projects[i]) {
                lemma_keep_all(s.projects, keep);
            }
        }
    }
}

/// What `keep_views` keeps: only kept elements, every kept element, and at
/// most as many as there were.
pub proof fn lemma_keep_props(ps: Seq<ProjectStatusView>, keep: spec_fn(ProjectStatusView) -> bool)
    ensures
        forall|i: int|
            0 <= i < keep_views(ps, keep).len() ==> keep(#[trigger] keep_views(ps, keep)[i]),
        forall|i: int|
            0 <= i < ps.len() && keep(ps[i]) ==> #[trigger] keep_views(ps, keep).contains(ps[i]),
        keep_views(ps, keep).len() <= ps.len(),
        keep_views(ps, keep).len() == ps.len() ==> keep_views(ps, keep) == ps,
    decreases ps.len(),
{
    if ps.len() > 0 {
        let d = ps.drop_last();
        lemma_keep_props(d, keep);
        let r = keep_views(d, keep);
        let cur = keep_views(ps, keep);
        assert forall|i: int| 0 <= i < cur.len() implies keep(#[trigger] cur[i]) by {
            if i < r.len() {
                assert(cur[i] == r[i]);
            }
        }
        assert forall|i: int| 0 <= i < ps.len() && keep(ps[i]) implies #[trigger] cur.contains(
            ps[i],
        ) by {
            if i < d.len() {
                assert(d[i] == ps[i]);
                assert(r.contains(d[i]));
                let m = choose|m: int| 0 <= m < r.len() && r[m] == d[i];
                if keep(ps.last()) {
                    assert(cur[m] == r[m]);
                }
            } else {
                assert(cur[cur.len() - 1] == ps[i]);
            }
        }
        if cur.len() == ps.len() {
            assert(ps =~= d.push(ps.last()));
        }
    }
}

/// When every element is kept, `keep_views` keeps them all.
pub proof fn lemma_keep_all(ps: Seq<ProjectStatusView>, keep: spec_fn(ProjectStatusView) -> bool)
    requires
        forall|i: int| 0 <= i < ps.len() ==> keep(#[trigger] ps[i]),
    ensures
        keep_views(ps, keep) == ps,
    decreases ps.len(),
{
    if ps.len() > 0 {
        let d = ps.drop_last();
        assert forall|i: int| 0 <= i < d.len() implies keep(#[trigger] d[i]) by {
            assert(d[i] == ps[i]);
        }
        lemma_keep_all(d, keep);
        assert(keep(ps[ps.len() - 1]));
        assert(ps =~= d.push(ps.last()));
    }
}

/// Escape quits only when no prompt, search or filter is active; otherwise
/// it undoes the innermost of those and keeps running.
pub proof fn law_escape_quits_only_when_idle(s: AppView)
    ensures
        s.escape_command() == CommandView::Quit <==> (s.pending_delete is None && s.mode
            == InputMode::Normal && !s.has_active_filter()),
        s.escape_command() == CommandView::Quit ==> !s.escaped().running,
        s.escape_command() != CommandView::Quit ==> s.escaped().running == s.running,
        s.pending_delete is Some ==> s.escaped() == (AppView { pending_delete: None, ..s }),
{
}

/// A completed fetch settles the batch (re-sorts and reports) only once
/// nothing else is in flight, and asks to persist the cache only then.
pub proof fn law_cache_persisted_when_batch_settles(
    old: AppView,
    index: usize,
    result: Result<Vec<crate::domain::run::WorkflowRun>, crate::ports::ProviderError>,
    now: i64,
    new: AppView,
    cmd: CommandView,
)
    requires
        fetch_applied(old, new, cmd, index, result_view(result), now),
    ensures
        cmd == CommandView::PersistCache ==> new.inflight == 0,
        new.inflight == if old.inflight == 0 { 0 } else { (old.inflight - 1) as usize },
        new.inflight == 0 ==> !new.cache_dirty,
        (new.inflight == 0 && result is Ok && index < old.projects.len()) ==> cmd
            == CommandView::PersistCache,
{
}


/// A completed fetch of an existing project is recorded on that project:
/// on success it holds the fetched runs stamped with the completion time and
/// its error streak is reset (so it leaves backoff); on failure it holds the
/// error and its streak grows by one (saturating). Re-sorting may move it,
/// but it stays in the list.
pub proof fn law_fetch_result_recorded(
    old: AppView,
    index: usize,
    result: Result<Vec<crate::domain::run::WorkflowRun>, crate::ports::ProviderError>,
    now: i64,
    new: AppView,
    cmd: CommandView,
)
    requires
        reduces(old, Action::FetchCompleted { index, result }, now, new, cmd),
        index < old.projects.len(),
    ensures
        result matches Ok(runs) ==> new.projects.contains(
            (ProjectStatusView {
                consecutive_errors: 0,
                load: LoadView::Loaded { runs: runs@, fetched_at: now },
                ..old.projects[index as int]
            }),
        ),
        result matches Ok(runs) ==> !((ProjectStatusView {
            consecutive_errors: 0,
            load: LoadView::Loaded { runs: runs@, fetched_at: now },
            ..old.projects[index as int]
        }).spec_poll_tier(now) is Backoff),
        result matches Err(e) ==> new.projects.contains(
            (ProjectStatusView {
                consecutive_errors: if old.projects[index as int].consecutive_errors == u32::MAX {
                    u32::MAX
                } else {
                    (old.projects[index as int].consecutive_errors + 1) as u32
                },
                load: LoadView::Failed { message: e.spec_message() },
                ..old.projects[index as int]
            }),
        ),
{
    broadcast use vstd::seq_lib::group_to_multiset_ensures;

    let mid = old.fetch_recorded(index, result_view(result), now);
    let x = mid.projects[index as int];
    assert(mid.projects.contains(x));
    if mid.inflight > 0 {
        assert(new.projects.contains(x));
    } else {
        assert(mid.projects.to_multiset().count(x) > 0);
        assert(new.projects.to_multiset().count(x) > 0);
        assert(new.projects.contains(x));
    }
}

} // verus!

//! Reducer steps for removing repositories from the dashboard: staging a
//! confirm prompt, and applying or cancelling it.

use vstd::prelude::*;
use super::state::{count_owned, AppState, AppView, Command, CommandView, PendingDelete, PendingView};
use super::toast::{Toast, ToastKind};
use crate::domain::project::{owned_by, slug_of};
use crate::domain::project_status::{views, ProjectStatus, ProjectStatusView};
use crate::ports::Clock;
use crate::text::{decimal, push_decimal, push_str, str_eq};

verus! {

/// The statuses among `ps` satisfying `keep`, in order.
pub open spec fn keep_views(
    ps: Seq<ProjectStatusView>,
    keep: spec_fn(ProjectStatusView) -> bool,
) -> Seq<ProjectStatusView>
    decreases ps.len(),
{
    if ps.len() == 0 {
        seq![]
    } else {
        let r = keep_views(ps.drop_last(), keep);
        if keep(ps.last()) {
            r.push(ps.last())
        } else {
            r
        }
    }
}

/// Which statuses survive confirming `pending`.
pub open spec fn survives(pending: PendingView) -> spec_fn(ProjectStatusView) -> bool {
    match pending {
        PendingView::Repo { slug } => |p: ProjectStatusView|
            slug_of(p.project.owner@, p.project.repo@) != slug,
        PendingView::Owner { owner, .. } => |p: ProjectStatusView| !owned_by(p.project@, owner),
    }
}

/// Toast text after removing `n` projects for `pending`.
pub open spec fn removed_msg(pending: PendingView, n: nat) -> Seq<char> {
    match pending {
        PendingView::Repo { slug } => "Removed "@ + slug,
        PendingView::Owner { owner, .. } => "Removed "@ + decimal(n) + " repo(s) of \""@ + owner
            + "\""@,
    }
}

/// Whether some status in `ps` is owned by `owner`.
pub open spec fn any_owned(ps: Seq<ProjectStatusView>, owner: Seq<char>) -> bool {
    exists|i: int| 0 <= i < ps.len() && owned_by(#[trigger] ps[i].project@, owner)
}

impl AppView {
    /// State after confirming the pending delete: the matching projects are
    /// removed; an owner filter that no longer matches anything is dropped.
    pub open spec fn delete_confirmed(self) -> AppView {
        match self.pending_delete {
            None => self,
            Some(pd) => {
                let kept = keep_views(self.projects, survives(pd));
                let n = (self.projects.len() - kept.len()) as nat;
                let s1 = AppView { pending_delete: None, ..self };
                if n == 0 {
                    s1.with_toast("Nothing was removed"@, ToastKind::Warning)
                } else {
                    AppView {
                        projects: kept,
                        owner_filter: match self.owner_filter {
                            Some(o) => if any_owned(kept, o) {
                                Some(o)
                            } else {
                                None
                            },
                            None => None,
                        },
                        ..s1
                    }.clamped().with_toast(removed_msg(pd, n), ToastKind::Success)
                }
            },
        }
    }

    /// Command issued by confirming the pending delete.
    pub open spec fn delete_command(self) -> CommandView {
        match self.pending_delete {
            None => CommandView::Nothing,
            Some(pd) => if keep_views(self.projects, survives(pd)).len() == self.projects.len() {
                CommandView::Nothing
            } else {
                CommandView::PersistProjects
            },
        }
    }
}

proof fn lemma_keep_len(ps: Seq<ProjectStatusView>, keep: spec_fn(ProjectStatusView) -> bool)
    ensures
        keep_views(ps, keep).len() <= ps.len(),
        keep_views(ps, keep).len() == ps.len() ==> keep_views(ps, keep) == ps,
    decreases ps.len(),
{
    if ps.len() > 0 {
        lemma_keep_len(ps.drop_last(), keep);
        if keep_views(ps, keep).len() == ps.len() {
            assert(ps =~= ps.drop_last().push(ps.last()));
        }
    }
}

impl<C: Clock> AppState<C> {
    /// Stage a confirm prompt to remove the selected repository.
    pub(crate) fn request_delete_repo(&mut self)
        ensures
            final(self)@ == old(self)@.repo_delete_requested(),
            final(self).clock == old(self).clock,
    {
        let slug = match self.selected_status() {
            Some(st) => Some(st.project.slug()),
            None => None,
        };
        if let Some(slug) = slug {
            self.pending_delete = Some(PendingDelete::Repo { slug });
        }
    }

    /// Number of projects owned by `owner`.
    fn owned_count(&self, owner: &str) -> (r: usize)
        ensures
            r == count_owned(self@.projects, owner@),
    {
        let mut n: usize = 0;
        let mut i: usize = 0;
        while i < self.projects.len()
            invariant
                i <= self.projects@.len(),
                n == count_owned(self@.projects.take(i as int), owner@),
                n <= i,
            decreases self.projects@.len() - i,
        {
            assert(self@.projects.take(i + 1).drop_last() =~= self@.projects.take(i as int));
            assert(self@.projects[i as int] == self.projects@[i as int]@);
            if self.projects[i].project.belongs_to(owner) {
                n = n + 1;
            }
            i = i + 1;
        }
        assert(self@.projects.take(self.projects@.len() as int) =~= self@.projects);
        n
    }

    /// Stage a confirm prompt to remove the selected owner's whole company.
    pub(crate) fn request_delete_owner(&mut self)
        ensures
            final(self)@ == old(self)@.owner_delete_requested(),
            final(self).clock == old(self).clock,
    {
        let owner = match self.selected_status() {
            Some(st) => Some(st.project.owner.clone()),
            None => None,
        };
        if let Some(owner) = owner {
            let count = self.owned_count(owner.as_str());
            self.pending_delete = Some(PendingDelete::Owner { owner, count });
        }
    }

    /// Whether some project is owned by `owner`.
    fn any_belongs_to(&self, owner: &str) -> (r: bool)
        ensures
            r == any_owned(self@.projects, owner@),
    {
        let mut i: usize = 0;
        while i < self.projects.len()
            invariant
                i <= self.projects@.len(),
                forall|k: int| 0 <= k < i ==> !owned_by(#[trigger] self@.projects[k].project@, owner@),
            decreases self.projects@.len() - i,
        {
            assert(self@.projects[i as int] == self.projects@[i as int]@);
            if self.projects[i].project.belongs_to(owner) {
                assert(owned_by(self@.projects[i as int].project@, owner@));
                return true;
            }
            i = i + 1;
        }
        false
    }

    /// Apply the pending delete to the in-memory project list and request
    /// that the runtime persist it. The reducer never writes to disk itself.
    pub(crate) fn confirm_delete(&mut self) -> (cmd: Command)
        ensures
            final(self)@ == old(self)@.delete_confirmed(),
            cmd@ == old(self)@.delete_command(),
            final(self).clock == old(self).clock,
    {
        let ghost s0 = self@;
        let pending = match self.pending_delete.take() {
            Some(p) => p,
            None => return Command::Nothing,
        };
        let ghost pd = pending@;
        let ghost keep = survives(pd);
        let mut rest: Vec<ProjectStatus> = Vec::new();
        std::mem::swap(&mut rest, &mut self.projects);
        let ghost orig = views(rest@);
        let before = rest.len();
        let mut kept: Vec<ProjectStatus> = Vec::new();
        let mut i: usize = 0;
        assert(orig.take(0) =~= Seq::<ProjectStatusView>::empty());
        assert(views(kept@) =~= Seq::<ProjectStatusView>::empty());
        while rest.len() > 0
            invariant
                i + rest@.len() == orig.len(),
                orig.len() == before,
                views(rest@) == orig.skip(i as int),
                views(kept@) == keep_views(orig.take(i as int), keep),
                keep == survives(pd),
                pd == pending@,
            decreases rest@.len(),
        {
            let ghost r0 = views(rest@);
            let x = rest.remove(0);
            assert(r0[0] == x@);
            assert(views(rest@) =~= r0.drop_first());
            assert(orig.skip(i as int).drop_first() =~= orig.skip(i + 1));
            assert(orig.take(i + 1).drop_last() =~= orig.take(i as int));
            assert(orig[i as int] == x@);
            let survive = match &pending {
                PendingDelete::Repo { slug } => {
                    let s = x.project.slug();
                    !str_eq(s.as_str(), slug.as_str())
                },
                PendingDelete::Owner { owner, .. } => !x.project.belongs_to(owner.as_str()),
            };
            assert(survive == keep(x@));
            let ghost k0 = views(kept@);
            if survive {
                kept.push(x);
                assert(views(kept@) =~= k0.push(x@));
            }
            i = i + 1;
        }
        assert(orig.take(i as int) =~= orig);
        proof {
            lemma_keep_len(orig, keep);
            assert(views(kept@).len() == kept@.len());
        }
        self.projects = kept;
        let removed = before - self.projects.len();
        if removed == 0 {
            self.toast = Some(Toast::warning("Nothing was removed"));
            return Command::Nothing;
        }
        let mut summary = String::new();
        match &pending {
            PendingDelete::Repo { slug } => {
                push_str(&mut summary, "Removed ");
                push_str(&mut summary, slug.as_str());
            },
            PendingDelete::Owner { owner, .. } => {
                push_str(&mut summary, "Removed ");
                push_decimal(&mut summary, removed as u64);
                push_str(&mut summary, " repo(s) of \"");
                push_str(&mut summary, owner.as_str());
                push_str(&mut summary, "\"");
            },
        }
        assert(summary@ =~= removed_msg(pd, removed as nat));
        let drop_owner = match &self.filter.owner {
            Some(o) => !self.any_belongs_to(o.as_str()),
            None => false,
        };
        if drop_owner {
            self.filter.owner = None;
        }
        self.clamp_selection();
        self.toast = Some(Toast::success(summary.as_str()));
        Command::PersistProjects
    }
}

} // verus!

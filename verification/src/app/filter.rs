//! Filter — the value object that decides which projects are *visible*.

use vstd::prelude::*;
use vstd::string::*;
use crate::domain::project::{owned_by, opt_view, query_matches, Project, ProjectView};
use crate::text::{chars_of, trim_range, trim_ws};

verus! {

/// Active view filters. Empty query + no owner means "show everything".
#[derive(Debug, Clone, PartialEq, Eq)]
pub struct Filter {
    /// Free-text query matched against owner/repo/label (case-insensitive).
    pub query: String,
    /// Restrict to a single owner/company, if set.
    pub owner: Option<String>,
}

/// Whether a project with view `p` passes a filter with this query and owner.
pub open spec fn passes_filter(query: Seq<char>, owner: Option<Seq<char>>, p: ProjectView) -> bool {
    (match owner {
        Some(o) => owned_by(p, o),
        None => true,
    }) && query_matches(p, query)
}

/// Whether a filter with this query and owner narrows the list.
pub open spec fn filter_active(query: Seq<char>, owner: Option<Seq<char>>) -> bool {
    owner is Some || trim_ws(query).len() > 0
}

impl Default for Filter {
    fn default() -> (f: Filter)
        ensures
            f.query@ == Seq::<char>::empty(),
            f.owner is None,
    {
        Filter { query: String::new(), owner: None }
    }
}

impl Filter {
    /// Whether `project` passes all active filters.
    pub fn passes(&self, project: &Project) -> (r: bool)
        ensures
            r == passes_filter(self.query@, opt_view(self.owner), project@),
    {
        let owner_ok = match &self.owner {
            Some(o) => project.belongs_to(o.as_str()),
            None => true,
        };
        owner_ok && project.matches_query(self.query.as_str())
    }

    /// Whether any filter is currently narrowing the list.
    pub fn is_active(&self) -> (r: bool)
        ensures
            r == filter_active(self.query@, opt_view(self.owner)),
    {
        if self.owner.is_some() {
            return true;
        }
        let v = chars_of(self.query.as_str());
        let n = v.len();
        let (a, b) = trim_range(v.as_slice(), 0, n);
        assert(v@.subrange(0, n as int) =~= self.query@);
        a < b
    }

    /// The trimmed query, or `None` when blank.
    pub fn query_text(&self) -> (r: Option<&str>)
        ensures
            match r {
                Some(q) => q@ == trim_ws(self.query@) && q@.len() > 0,
                None => trim_ws(self.query@).len() == 0,
            },
    {
        let v = chars_of(self.query.as_str());
        let n = v.len();
        let (a, b) = trim_range(v.as_slice(), 0, n);
        assert(v@.subrange(0, n as int) =~= self.query@);
        if a < b {
            Some(self.query.as_str().substring_char(a, b))
        } else {
            None
        }
    }

    /// Reset to "show everything".
    pub fn clear(&mut self)
        ensures
            final(self).query@ == Seq::<char>::empty(),
            final(self).owner is None,
    {
        self.query = String::new();
        self.owner = None;
    }
}

/// A filter that is not narrowing the list lets every project through.
pub proof fn law_inactive_filter_passes_all(query: Seq<char>, owner: Option<Seq<char>>, p: ProjectView)
    requires
        !filter_active(query, owner),
    ensures
        passes_filter(query, owner, p),
{
}

} // verus!

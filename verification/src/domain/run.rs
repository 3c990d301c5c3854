//! Workflow run — the domain's view of a single GitHub Actions execution.
//!
//! Timestamps are whole seconds since the Unix epoch (UTC).

use vstd::prelude::*;
use super::status::RunState;

verus! {

/// A single workflow run, normalized for the app.
#[derive(Debug, Clone, PartialEq, Eq)]
pub struct WorkflowRun {
    /// Workflow display name (e.g. "CI").
    pub name: String,
    /// Monotonic run number within the workflow.
    pub run_number: i64,
    /// Derived semantic state.
    pub state: RunState,
    /// Branch the run executed against.
    pub branch: String,
    /// Short commit SHA (first 7 chars).
    pub short_sha: String,
    /// Event that triggered the run (push, pull_request, ...).
    pub event: String,
    /// When the run was created (Unix seconds).
    pub created_at: i64,
    /// Last update timestamp (Unix seconds).
    pub updated_at: i64,
    /// Web URL to open in a browser.
    pub html_url: String,
}

/// `x` clamped into the range of `i64`.
pub open spec fn clamp_i64(x: int) -> i64 {
    if x > i64::MAX {
        i64::MAX
    } else if x < i64::MIN {
        i64::MIN
    } else {
        x as i64
    }
}

impl WorkflowRun {
    /// An equal copy of this run.
    pub fn duplicate(&self) -> (r: WorkflowRun)
        ensures
            r == *self,
    {
        WorkflowRun {
            name: self.name.clone(),
            run_number: self.run_number,
            state: self.state,
            branch: self.branch.clone(),
            short_sha: self.short_sha.clone(),
            event: self.event.clone(),
            created_at: self.created_at,
            updated_at: self.updated_at,
            html_url: self.html_url.clone(),
        }
    }

    /// Wall-clock seconds between creation and last update (clamped to `i64`).
    pub fn duration(&self) -> (r: i64)
        ensures
            r == clamp_i64(self.updated_at - self.created_at),
    {
        match self.updated_at.checked_sub(self.created_at) {
            Some(d) => d,
            None => {
                if self.updated_at > self.created_at {
                    i64::MAX
                } else {
                    i64::MIN
                }
            },
        }
    }
}

/// An equal copy of a list of runs.
pub fn duplicate_runs(runs: &Vec<WorkflowRun>) -> (r: Vec<WorkflowRun>)
    ensures
        r@ == runs@,
{
    let mut r: Vec<WorkflowRun> = Vec::new();
    let mut i: usize = 0;
    while i < runs.len()
        invariant
            i <= runs@.len(),
            r@ == runs@.take(i as int),
        decreases runs@.len() - i,
    {
        r.push(runs[i].duplicate());
        i = i + 1;
        assert(r@ =~= runs@.take(i as int));
    }
    assert(runs@.take(runs@.len() as int) =~= runs@);
    r
}

} // verus!

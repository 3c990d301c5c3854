//! Ports — the values and abstractions the application core exchanges with
//! the outside world (time, fetch errors, discovery sources, cache snapshots).

use vstd::prelude::*;
use crate::domain::run::WorkflowRun;
use crate::text::push_str;

verus! {

/// Source of the current time (Unix seconds) — the single source of "now".
pub trait Clock {
    /// Whether `t` is a reading this clock may give.
    spec fn can_read(&self, t: i64) -> bool;

    /// Sample the clock.
    fn now(&self) -> (r: i64)
        ensures
            self.can_read(r),
    ;
}

/// Errors a status provider can surface, independent of any HTTP client.
#[derive(Debug, Clone, PartialEq, Eq)]
pub enum ProviderError {
    /// Authentication/authorization failure (bad or missing token).
    Auth(String),
    /// The repository or its workflows could not be found.
    NotFound(String),
    /// Rate limited by the upstream API.
    RateLimited(String),
    /// Any other transport/parsing failure.
    Other(String),
}

impl ProviderError {
    pub open spec fn spec_message(self) -> Seq<char> {
        match self {
            ProviderError::Auth(m) => "authentication failed: "@ + m@,
            ProviderError::NotFound(m) => "not found: "@ + m@,
            ProviderError::RateLimited(m) => "rate limited: "@ + m@,
            ProviderError::Other(m) => "provider error: "@ + m@,
        }
    }

    /// Human-readable message.
    pub fn message(&self) -> (r: String)
        ensures
            r@ == self.spec_message(),
    {
        let mut r = String::new();
        match self {
            ProviderError::Auth(m) => {
                push_str(&mut r, "authentication failed: ");
                push_str(&mut r, m.as_str());
            },
            ProviderError::NotFound(m) => {
                push_str(&mut r, "not found: ");
                push_str(&mut r, m.as_str());
            },
            ProviderError::RateLimited(m) => {
                push_str(&mut r, "rate limited: ");
                push_str(&mut r, m.as_str());
            },
            ProviderError::Other(m) => {
                push_str(&mut r, "provider error: ");
                push_str(&mut r, m.as_str());
            },
        }
        assert(r@ =~= self.spec_message());
        r
    }

    /// Whether this is a rate-limit response.
    pub fn is_rate_limited(&self) -> (r: bool)
        ensures
            r == (*self is RateLimited),
    {
        matches!(self, ProviderError::RateLimited(_))
    }
}

/// Where to discover repositories from, for the `import` command.
#[derive(Debug, Clone, PartialEq, Eq)]
pub enum DiscoverySource {
    /// Repositories owned by the authenticated user.
    AuthenticatedUser,
    /// Public repositories of a specific user.
    User(String),
    /// Repositories of an organization.
    Org(String),
}

/// Error persisting the tracked-project list.
#[derive(Debug, Clone, PartialEq, Eq)]
pub struct StoreError(pub String);

impl StoreError {
    /// Human-readable message.
    pub fn message(&self) -> (r: String)
        ensures
            r@ == "failed to persist projects: "@ + self.0@,
    {
        let mut r = String::new();
        push_str(&mut r, "failed to persist projects: ");
        push_str(&mut r, self.0.as_str());
        r
    }
}

/// A cached snapshot of one project's last successful fetch.
#[derive(Debug, Clone)]
pub struct CachedProject {
    pub slug: String,
    pub runs: Vec<WorkflowRun>,
    /// Unix seconds.
    pub fetched_at: i64,
}

/// Mathematical view of a [`CachedProject`].
pub struct CachedView {
    pub slug: Seq<char>,
    pub runs: Seq<WorkflowRun>,
    pub fetched_at: i64,
}

impl View for CachedProject {
    type V = CachedView;

    open spec fn view(&self) -> CachedView {
        CachedView { slug: self.slug@, runs: self.runs@, fetched_at: self.fetched_at }
    }
}

} // verus!

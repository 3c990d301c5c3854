//! GitHub anti-corruption mapping: what the REST API reports (runs,
//! repositories, errors), already reduced to plain values, is translated
//! into the domain's vocabulary here. The HTTP client itself lives at the
//! edge of the program.

use vstd::prelude::*;
use crate::config::{is_non_blank, non_blank};
use crate::domain::project::{Project, ProjectView};
use crate::domain::run::WorkflowRun;
use crate::domain::status::{api_state, RunState};
use crate::ports::ProviderError;
use crate::text::{chars_of, contains_chars, contains_seq, decimal, push_decimal, push_str, string_of};

verus! {

/// What the logic reads of one workflow run reported by the API.
#[derive(Debug)]
pub struct ApiRun {
    pub name: String,
    pub run_number: i64,
    pub status: String,
    pub conclusion: Option<String>,
    pub head_branch: String,
    pub head_sha: String,
    pub event: String,
    /// Creation time (Unix seconds).
    pub created_at: i64,
    /// Last update time (Unix seconds).
    pub updated_at: i64,
    pub html_url: String,
}

/// What the logic reads of one repository reported by the API.
#[derive(Debug)]
pub struct ApiRepo {
    /// The owner's login, when the API reports an owner.
    pub owner: Option<String>,
    pub name: String,
    /// Whether the repository is archived, when reported.
    pub archived: Option<bool>,
}

/// A failed API request: an error response from GitHub with its HTTP status
/// and message, or any other failure with its description.
#[derive(Debug)]
pub enum ApiFailure {
    GitHub { status: u16, message: String },
    Other(String),
}

/// The first seven characters of a commit SHA (all of it when shorter).
pub open spec fn short_sha_of(sha: Seq<char>) -> Seq<char> {
    if sha.len() <= 7 {
        sha
    } else {
        sha.take(7)
    }
}

/// Map an API run to the domain [`WorkflowRun`].
pub fn map_run(run: ApiRun) -> (r: WorkflowRun)
    ensures
        r.name == run.name,
        r.run_number == run.run_number,
        r.state == api_state(
            run.status@,
            match run.conclusion {
                Some(c) => Some(c@),
                None => None,
            },
        ),
        r.branch == run.head_branch,
        r.short_sha@ == short_sha_of(run.head_sha@),
        r.event == run.event,
        r.created_at == run.created_at,
        r.updated_at == run.updated_at,
        r.html_url == run.html_url,
{
    let state = RunState::from_api(
        run.status.as_str(),
        match &run.conclusion {
            Some(c) => Some(c.as_str()),
            None => None,
        },
    );
    let sha = chars_of(run.head_sha.as_str());
    let end = if sha.len() <= 7 {
        sha.len()
    } else {
        7
    };
    let short_sha = string_of(sha.as_slice(), 0, end);
    assert(sha@.subrange(0, end as int) =~= short_sha_of(run.head_sha@));
    WorkflowRun {
        name: run.name,
        run_number: run.run_number,
        state,
        branch: run.head_branch,
        short_sha,
        event: run.event,
        created_at: run.created_at,
        updated_at: run.updated_at,
        html_url: run.html_url,
    }
}

/// The project an API repository stands for, when it reports an owner.
pub open spec fn repo_project(owner: Option<Seq<char>>, name: Seq<char>) -> Option<ProjectView> {
    match owner {
        Some(o) => Some(ProjectView { owner: o, repo: name, branch: None, label: None }),
        None => None,
    }
}

/// Map an API repository to a domain [`Project`], skipping repositories
/// with an indeterminate owner.
pub fn map_repo(repo: ApiRepo) -> (r: Option<Project>)
    ensures
        match r {
            Some(p) => repo_project(
                match repo.owner {
                    Some(o) => Some(o@),
                    None => None,
                },
                repo.name@,
            ) == Some(p@),
            None => repo.owner is None,
        },
{
    match repo.owner {
        Some(owner) => Some(Project { owner, repo: repo.name, branch: None, label: None }),
        None => None,
    }
}

/// The projects a discovery listing yields: the repositories that are not
/// archived and report an owner, in order.
pub open spec fn discovered(repos: Seq<ApiRepo>) -> Seq<ProjectView>
    decreases repos.len(),
{
    if repos.len() == 0 {
        seq![]
    } else {
        let r = discovered(repos.drop_last());
        let last = repos.last();
        if last.archived == Some(true) {
            r
        } else {
            match last.owner {
                Some(o) => r.push(
                    ProjectView { owner: o@, repo: last.name@, branch: None, label: None },
                ),
                None => r,
            }
        }
    }
}

/// Turn a discovery listing into projects: archived repositories and those
/// without an owner are skipped.
pub fn projects_from_repos(repos: Vec<ApiRepo>) -> (r: Vec<Project>)
    ensures
        r@.map_values(|p: Project| p@) == discovered(repos@),
{
    let ghost orig = repos@;
    let mut rest = repos;
    let n0 = rest.len();
    let mut out: Vec<Project> = Vec::new();
    let mut i: usize = 0;
    while rest.len() > 0
        invariant
            i + rest@.len() == n0,
            orig.len() == n0,
            rest@ == orig.skip(i as int),
            out@.map_values(|p: Project| p@) == discovered(orig.take(i as int)),
        decreases rest@.len(),
    {
        let ghost r0 = rest@;
        let ghost o0 = out@.map_values(|p: Project| p@);
        let repo = rest.remove(0);
        assert(r0[0] == repo);
        assert(rest@ =~= r0.drop_first());
        assert(orig.skip(i as int).drop_first() =~= orig.skip(i + 1));
        assert(orig.take(i + 1).drop_last() =~= orig.take(i as int));
        assert(orig.take(i + 1).last() == repo);
        let archived = match repo.archived {
            Some(a) => a,
            None => false,
        };
        if !archived {
            match repo.owner {
                Some(owner) => {
                    let p = Project { owner, repo: repo.name, branch: None, label: None };
                    out.push(p);
                    assert(out@.map_values(|p: Project| p@) =~= o0.push(p@));
                },
                None => {},
            }
        }
        i = i + 1;
    }
    assert(orig.take(i as int) =~= orig);
    out
}

/// The Unicode lowercase mapping `str::to_lowercase` computes.
pub uninterp spec fn unicode_lowercase(s: Seq<char>) -> Seq<char>;

/// Calls `str::to_lowercase`; the result is named [`unicode_lowercase`] of
/// the argument.
#[verifier::external_body]
fn to_lowercase(s: &str) -> (r: String)
    ensures
        r@ == unicode_lowercase(s@),
{
    s.to_lowercase()
}

/// Whether `err` is what [`map_error`] classifies as a rate limit, an
/// authentication failure, a missing repository, or something else.
pub open spec fn error_kind(err: ApiFailure) -> ProviderErrorKind {
    match err {
        ApiFailure::GitHub { status, message } => if status == 401 || status == 403 {
            denied_kind(unicode_lowercase(message@))
        } else if status == 404 {
            ProviderErrorKind::NotFound
        } else if status == 429 {
            ProviderErrorKind::RateLimited
        } else {
            ProviderErrorKind::Other
        },
        ApiFailure::Other(_) => ProviderErrorKind::Other,
    }
}

/// The message [`map_error`] keeps for `err`.
pub open spec fn error_text(err: ApiFailure) -> Seq<char> {
    match err {
        ApiFailure::GitHub { status, message } => if status == 401 || status == 403 || status
            == 404 || status == 429 {
            message@
        } else {
            "HTTP "@ + decimal(status as nat) + ": "@ + message@
        },
        ApiFailure::Other(m) => m@,
    }
}

/// The variants of [`ProviderError`], without their messages.
pub enum ProviderErrorKind {
    Auth,
    NotFound,
    RateLimited,
    Other,
}

/// The kind and message of a [`ProviderError`].
pub open spec fn provider_error_parts(e: ProviderError) -> (ProviderErrorKind, Seq<char>) {
    match e {
        ProviderError::Auth(m) => (ProviderErrorKind::Auth, m@),
        ProviderError::NotFound(m) => (ProviderErrorKind::NotFound, m@),
        ProviderError::RateLimited(m) => (ProviderErrorKind::RateLimited, m@),
        ProviderError::Other(m) => (ProviderErrorKind::Other, m@),
    }
}

/// The kind of a 401/403 answer whose message, lowercased, is `lowered`:
/// a rate limit when it mentions "rate limit", otherwise an authentication
/// failure.
pub open spec fn denied_kind(lowered: Seq<char>) -> ProviderErrorKind {
    if contains_seq(lowered, "rate limit"@) {
        ProviderErrorKind::RateLimited
    } else {
        ProviderErrorKind::Auth
    }
}

/// Classify a 401/403 answer carrying `message`, given that message
/// lowercased (`lowered`): a rate limit or an authentication failure,
/// keeping the message.
pub fn classify_denied(message: String, lowered: &str) -> (r: ProviderError)
    ensures
        provider_error_parts(r) == (denied_kind(lowered@), message@),
{
    let needle = chars_of("rate limit");
    if contains_chars(chars_of(lowered).as_slice(), needle.as_slice()) {
        ProviderError::RateLimited(message)
    } else {
        ProviderError::Auth(message)
    }
}

/// Normalize an API failure into the [`ProviderError`] vocabulary.
pub fn map_error(err: ApiFailure) -> (r: ProviderError)
    ensures
        provider_error_parts(r) == (error_kind(err), error_text(err)),
{
    match err {
        ApiFailure::GitHub { status, message } => {
            if status == 401 || status == 403 {
                let lower = to_lowercase(message.as_str());
                classify_denied(message, lower.as_str())
            } else if status == 404 {
                ProviderError::NotFound(message)
            } else if status == 429 {
                ProviderError::RateLimited(message)
            } else {
                let mut m = String::new();
                push_str(&mut m, "HTTP ");
                push_decimal(&mut m, status as u64);
                push_str(&mut m, ": ");
                push_str(&mut m, message.as_str());
                ProviderError::Other(m)
            }
        },
        ApiFailure::Other(m) => ProviderError::Other(m),
    }
}

/// The REST route listing a user's public repositories, most recently pushed
/// first.
pub fn user_repos_route(user: &str) -> (r: String)
    ensures
        r@ == "/users/"@ + user@ + "/repos?per_page=100&sort=pushed"@,
{
    let mut r = String::new();
    push_str(&mut r, "/users/");
    push_str(&mut r, user);
    push_str(&mut r, "/repos?per_page=100&sort=pushed");
    r
}

/// The token a client is built with: the given one unless it is blank.
pub fn usable_token(token: Option<String>) -> (r: Option<String>)
    ensures
        match token {
            Some(t) => if non_blank(t@) {
                r == Some(t)
            } else {
                r is None
            },
            None => r is None,
        },
{
    match token {
        Some(t) => if is_non_blank(t.as_str()) {
            Some(t)
        } else {
            None
        },
        None => None,
    }
}

} // verus!

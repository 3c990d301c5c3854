//! The run cache's on-disk records, and where the cache and the project
//! list are kept.
//!
//! The cache stores each run's state under its stable key
//! ([`RunState::persist_key`]) so it reads back without re-deriving it from
//! GitHub's raw strings. Serializing the records and touching the disk
//! happen at the edge of the program.

use vstd::prelude::*;
use super::dirs::{app_identity, path_join, platform_data_local_dir, project_dirs};
use crate::domain::run::WorkflowRun;
use crate::domain::status::{api_state, law_persist_key_roundtrip, RunState};
use crate::ports::CachedProject;
use crate::text::push_str;

verus! {

/// A cache kept as a single JSON document at `path`.
pub struct FileCacheStore {
    path: String,
}

/// The tracked-project list, kept in the config file at `path`.
pub struct FileProjectStore {
    path: String,
}

/// A copy of `s`.
fn owned(s: &str) -> (r: String)
    ensures
        r@ == s@,
{
    let mut r = String::new();
    push_str(&mut r, s);
    r
}

impl FileCacheStore {
    pub closed spec fn spec_path(self) -> Seq<char> {
        self.path@
    }

    pub fn new(path: String) -> (s: FileCacheStore)
        ensures
            s.spec_path() == path@,
    {
        FileCacheStore { path }
    }

    /// Where the cache file is.
    pub fn path(&self) -> (r: &str)
        ensures
            r@ == self.spec_path(),
    {
        self.path.as_str()
    }

    /// The default platform cache path (`cache.json` in the platform's local
    /// data directory of [`app_identity`]), if one can be determined.
    pub fn default_path() -> (r: Option<String>)
        ensures
            r matches Some(p) ==> "cache.json"@.is_suffix_of(p@),
    {
        let (qualifier, organization, application) = app_identity();
        match project_dirs(qualifier, organization, application) {
            Some(dirs) => {
                let dir = platform_data_local_dir(&dirs);
                proof {
                    reveal_strlit("cache.json");
                }
                Some(path_join(dir.as_str(), "cache.json"))
            },
            None => None,
        }
    }
}

impl FileProjectStore {
    pub closed spec fn spec_path(self) -> Seq<char> {
        self.path@
    }

    pub fn new(path: String) -> (s: FileProjectStore)
        ensures
            s.spec_path() == path@,
    {
        FileProjectStore { path }
    }

    /// Where the config file is.
    pub fn path(&self) -> (r: &str)
        ensures
            r@ == self.spec_path(),
    {
        self.path.as_str()
    }
}

/// One run as stored in the cache.
#[derive(Debug)]
pub struct RunRecord {
    pub name: String,
    pub run_number: i64,
    /// The run state's stable key (or, in older files, GitHub's raw status).
    pub status: String,
    /// GitHub's raw conclusion, if an older file stored one.
    pub conclusion: Option<String>,
    pub branch: String,
    pub short_sha: String,
    pub event: String,
    pub created_at: i64,
    pub updated_at: i64,
    pub html_url: String,
}

/// The state a stored `status` stands for: the state whose key it is, or
/// else its meaning as GitHub's raw strings.
pub open spec fn stored_state(status: Seq<char>, conclusion: Option<Seq<char>>) -> RunState {
    if exists|s: RunState| s.spec_persist_key() == status {
        choose|s: RunState| s.spec_persist_key() == status
    } else {
        api_state(status, conclusion)
    }
}

/// View of an optional string.
pub open spec fn opt_seq(o: Option<String>) -> Option<Seq<char>> {
    match o {
        Some(s) => Some(s@),
        None => None,
    }
}

impl RunRecord {
    /// The cache record of `r`: its state stored under its stable key.
    pub fn from_run(r: WorkflowRun) -> (d: RunRecord)
        ensures
            d.name == r.name,
            d.run_number == r.run_number,
            d.status@ == r.state.spec_persist_key(),
            d.conclusion is None,
            d.branch == r.branch,
            d.short_sha == r.short_sha,
            d.event == r.event,
            d.created_at == r.created_at,
            d.updated_at == r.updated_at,
            d.html_url == r.html_url,
    {
        RunRecord {
            name: r.name,
            run_number: r.run_number,
            status: owned(r.state.persist_key()),
            conclusion: None,
            branch: r.branch,
            short_sha: r.short_sha,
            event: r.event,
            created_at: r.created_at,
            updated_at: r.updated_at,
            html_url: r.html_url,
        }
    }
}

impl From<RunRecord> for WorkflowRun {
    fn from(d: RunRecord) -> (r: WorkflowRun) {
        let state = match RunState::from_persist_key(d.status.as_str()) {
            Some(s) => s,
            None => RunState::from_api(
                d.status.as_str(),
                match &d.conclusion {
                    Some(c) => Some(c.as_str()),
                    None => None,
                },
            ),
        };
        proof {
            if exists|s: RunState| s.spec_persist_key() == d.status@ {
                let c = choose|s: RunState| s.spec_persist_key() == d.status@;
                law_persist_key_roundtrip(c, state);
            }
        }
        WorkflowRun {
            name: d.name,
            run_number: d.run_number,
            state,
            branch: d.branch,
            short_sha: d.short_sha,
            event: d.event,
            created_at: d.created_at,
            updated_at: d.updated_at,
            html_url: d.html_url,
        }
    }
}

impl vstd::std_specs::convert::FromSpecImpl<RunRecord> for WorkflowRun {
    open spec fn obeys_from_spec() -> bool {
        true
    }

    open spec fn from_spec(d: RunRecord) -> WorkflowRun {
        run_of_record(d)
    }
}

/// The run a cache record reads back as.
pub open spec fn run_of_record(d: RunRecord) -> WorkflowRun {
    WorkflowRun {
        name: d.name,
        run_number: d.run_number,
        state: stored_state(d.status@, opt_seq(d.conclusion)),
        branch: d.branch,
        short_sha: d.short_sha,
        event: d.event,
        created_at: d.created_at,
        updated_at: d.updated_at,
        html_url: d.html_url,
    }
}

/// A run stored in the cache reads back as the same run.
pub proof fn law_cached_run_roundtrip(r: WorkflowRun, d: RunRecord)
    requires
        d.name == r.name,
        d.run_number == r.run_number,
        d.status@ == r.state.spec_persist_key(),
        d.branch == r.branch,
        d.short_sha == r.short_sha,
        d.event == r.event,
        d.created_at == r.created_at,
        d.updated_at == r.updated_at,
        d.html_url == r.html_url,
    ensures
        run_of_record(d) == r,
{
    let c = choose|s: RunState| s.spec_persist_key() == d.status@;
    assert(r.state.spec_persist_key() == d.status@);
    law_persist_key_roundtrip(c, r.state);
}

/// One project's cached snapshot as stored in the cache file.
#[derive(Debug)]
pub struct CachedRecord {
    pub slug: String,
    /// Unix seconds.
    pub fetched_at: i64,
    pub runs: Vec<RunRecord>,
}

impl CachedRecord {
    /// The cache record of a snapshot: each run stored under its state's key.
    pub fn from_cached(c: CachedProject) -> (d: CachedRecord)
        ensures
            d.slug == c.slug,
            d.fetched_at == c.fetched_at,
            d.runs@.len() == c.runs@.len(),
            forall|i: int|
                0 <= i < d.runs@.len() ==> run_of_record(#[trigger] d.runs@[i]) == c.runs@[i],
    {
        let mut rest = c.runs;
        let ghost orig = rest@;
        let n0 = rest.len();
        let mut out: Vec<RunRecord> = Vec::new();
        let mut i: usize = 0;
        while rest.len() > 0
            invariant
                i + rest@.len() == n0,
                orig.len() == n0,
                rest@ == orig.skip(i as int),
                out@.len() == i,
                forall|k: int| 0 <= k < i ==> run_of_record(#[trigger] out@[k]) == orig[k],
            decreases rest@.len(),
        {
            let ghost r0 = rest@;
            let r = rest.remove(0);
            assert(r0[0] == r);
            assert(rest@ =~= r0.drop_first());
            assert(orig.skip(i as int).drop_first() =~= orig.skip(i + 1));
            assert(orig[i as int] == r);
            let ghost rr = r;
            let d = RunRecord::from_run(r);
            proof {
                law_cached_run_roundtrip(rr, d);
            }
            out.push(d);
            i = i + 1;
        }
        CachedRecord { slug: c.slug, fetched_at: c.fetched_at, runs: out }
    }
}

impl CachedRecord {
    /// The snapshot this record reads back as.
    pub fn into_cached(self) -> (c: CachedProject)
        ensures
            c.slug == self.slug,
            c.fetched_at == self.fetched_at,
            c.runs@ == self.runs@.map_values(|r: RunRecord| run_of_record(r)),
    {
        let d = self;
        let mut rest = d.runs;
        let ghost orig = rest@;
        let n0 = rest.len();
        let mut runs: Vec<WorkflowRun> = Vec::new();
        let mut i: usize = 0;
        while rest.len() > 0
            invariant
                i + rest@.len() == n0,
                orig.len() == n0,
                rest@ == orig.skip(i as int),
                runs@ == orig.take(i as int).map_values(|r: RunRecord| run_of_record(r)),
            decreases rest@.len(),
        {
            let ghost r0 = rest@;
            let r = rest.remove(0);
            assert(r0[0] == r);
            assert(rest@ =~= r0.drop_first());
            assert(orig.skip(i as int).drop_first() =~= orig.skip(i + 1));
            assert(orig[i as int] == r);
            let ghost rr = r;
            let w = WorkflowRun::from(r);
            assert(w == run_of_record(rr));
            runs.push(w);
            assert(orig.take(i + 1).map_values(|r: RunRecord| run_of_record(r)) =~= orig.take(
                i as int,
            ).map_values(|r: RunRecord| run_of_record(r)).push(run_of_record(rr)));
            i = i + 1;
        }
        assert(orig.take(i as int) =~= orig);
        CachedProject { slug: d.slug, runs, fetched_at: d.fetched_at }
    }
}


} // verus!

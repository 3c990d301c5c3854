//! Configuration — the list of monitored projects plus settings, the
//! de-duplicating edits made to it, and multi-source token resolution.
//!
//! Reading, parsing and writing the TOML file happens at the edge of the
//! program; this module holds the values and every decision made on them.

use vstd::prelude::*;
use crate::adapters::dirs::{app_identity, path_join, platform_config_dir, project_dirs};
use crate::domain::poll::PollIntervals;
use crate::domain::project::{opt_view, Project, ProjectView};
use crate::text::{eq_ignore_ascii_case, lower_seq, push_str, trim_ws, str_eq, chars_of, trim_range, string_of};

verus! {

/// Default cap on concurrent API requests during a refresh.
pub const DEFAULT_MAX_CONCURRENCY: usize = 8;

/// Header comment written at the top of saved config files.
pub const CONFIG_HEADER: &'static str = "# github-status (ghs) configuration\n# Edit by hand, or use `ghs add owner/repo`, `ghs remove owner/repo`, `ghs import`.\n# Token is auto-detected: GITHUB_TOKEN > GH_TOKEN > settings.token > `gh auth token`.\n\n";

/// Commented-out example projects appended to a freshly scaffolded config so
/// the user sees the format without any real repositories being tracked.
pub const SCAFFOLD_EXAMPLES: &'static str = "\n# Add your repositories below (or run `ghs add owner/repo`). Examples:\n#\n# [[project]]\n# owner = \"your-org\"\n# repo = \"your-repo\"\n# branch = \"main\"   # optional branch filter\n# label = \"My API\"  # optional display name\n";

/// Top-level config file contents.
#[derive(Debug)]
pub struct Config {
    /// Global settings.
    pub settings: Settings,
    /// The repositories to monitor.
    pub projects: Vec<ProjectConfig>,
}

/// Tunable behavior knobs.
#[derive(Debug)]
pub struct Settings {
    /// Seconds between automatic refreshes (0 disables auto-refresh).
    pub refresh_interval_secs: u64,
    /// How many recent runs to fetch per project.
    pub runs_per_project: u8,
    /// Max number of concurrent API requests during a refresh.
    pub max_concurrency: usize,
    /// Persist fetched runs to disk between sessions.
    pub cache_enabled: bool,
    /// Adaptive polling intervals (seconds) per tier.
    pub poll_active_secs: u64,
    pub poll_recent_secs: u64,
    pub poll_stable_secs: u64,
    pub poll_dormant_secs: u64,
    pub poll_backoff_base_secs: u64,
    pub poll_backoff_cap_secs: u64,
    /// Personal access token stored in the file (a fallback; the environment
    /// is preferred).
    pub token: Option<String>,
}

/// On-disk representation of one monitored project.
#[derive(Debug)]
pub struct ProjectConfig {
    pub owner: String,
    pub repo: String,
    pub branch: Option<String>,
    pub label: Option<String>,
}

impl View for ProjectConfig {
    type V = ProjectView;

    open spec fn view(&self) -> ProjectView {
        ProjectView {
            owner: self.owner@,
            repo: self.repo@,
            branch: opt_view(self.branch),
            label: opt_view(self.label),
        }
    }
}

/// Views of a list of project entries.
pub open spec fn config_views(s: Seq<ProjectConfig>) -> Seq<ProjectView> {
    s.map_values(|c: ProjectConfig| c@)
}

/// The default settings.
pub open spec fn default_settings(s: Settings) -> bool {
    &&& s.refresh_interval_secs == 60
    &&& s.runs_per_project == 5
    &&& s.max_concurrency == DEFAULT_MAX_CONCURRENCY
    &&& s.cache_enabled
    &&& s.poll_active_secs == 10
    &&& s.poll_recent_secs == 45
    &&& s.poll_stable_secs == 300
    &&& s.poll_dormant_secs == 1800
    &&& s.poll_backoff_base_secs == 30
    &&& s.poll_backoff_cap_secs == 900
    &&& s.token is None
}

impl Default for Settings {
    fn default() -> (s: Settings)
        ensures
            default_settings(s),
    {
        let p = PollIntervals::default_intervals();
        Settings {
            refresh_interval_secs: 60,
            runs_per_project: 5,
            max_concurrency: DEFAULT_MAX_CONCURRENCY,
            cache_enabled: true,
            poll_active_secs: p.active,
            poll_recent_secs: p.recent,
            poll_stable_secs: p.stable,
            poll_dormant_secs: p.dormant,
            poll_backoff_base_secs: p.backoff_base,
            poll_backoff_cap_secs: p.backoff_cap,
            token: None,
        }
    }
}

impl Default for Config {
    fn default() -> (c: Config)
        ensures
            default_settings(c.settings),
            c.projects@.len() == 0,
    {
        Config { settings: Settings::default(), projects: Vec::new() }
    }
}

/// `max(x, 1)`.
pub open spec fn at_least_one(x: u64) -> u64 {
    if x >= 1 { x } else { 1 }
}

impl Settings {
    /// Build the domain [`PollIntervals`] from the configured seconds (each
    /// at least one second); the rate-limit cooldown keeps its default.
    pub fn poll_intervals(&self) -> (r: PollIntervals)
        ensures
            r == (PollIntervals {
                active: at_least_one(self.poll_active_secs),
                recent: at_least_one(self.poll_recent_secs),
                stable: at_least_one(self.poll_stable_secs),
                dormant: at_least_one(self.poll_dormant_secs),
                backoff_base: at_least_one(self.poll_backoff_base_secs),
                backoff_cap: at_least_one(self.poll_backoff_cap_secs),
                rate_limit_cooldown: 60,
            }),
    {
        let d = PollIntervals::default_intervals();
        PollIntervals {
            active: if self.poll_active_secs >= 1 { self.poll_active_secs } else { 1 },
            recent: if self.poll_recent_secs >= 1 { self.poll_recent_secs } else { 1 },
            stable: if self.poll_stable_secs >= 1 { self.poll_stable_secs } else { 1 },
            dormant: if self.poll_dormant_secs >= 1 { self.poll_dormant_secs } else { 1 },
            backoff_base: if self.poll_backoff_base_secs >= 1 {
                self.poll_backoff_base_secs
            } else {
                1
            },
            backoff_cap: if self.poll_backoff_cap_secs >= 1 {
                self.poll_backoff_cap_secs
            } else {
                1
            },
            rate_limit_cooldown: d.rate_limit_cooldown,
        }
    }
}

impl ProjectConfig {
    /// The on-disk entry for `p`.
    pub fn from_project(p: Project) -> (c: ProjectConfig)
        ensures
            c@ == p@,
    {
        ProjectConfig { owner: p.owner, repo: p.repo, branch: p.branch, label: p.label }
    }

    /// The domain project this entry describes.
    pub fn to_project(&self) -> (p: Project)
        ensures
            p@ == self@,
    {
        Project {
            owner: self.owner.clone(),
            repo: self.repo.clone(),
            branch: crate::domain::project::copy_opt(&self.branch),
            label: crate::domain::project::copy_opt(&self.label),
        }
    }
}

impl From<ProjectConfig> for Project {
    fn from(c: ProjectConfig) -> (p: Project) {
        Project { owner: c.owner, repo: c.repo, branch: c.branch, label: c.label }
    }
}

impl vstd::std_specs::convert::FromSpecImpl<ProjectConfig> for Project {
    open spec fn obeys_from_spec() -> bool {
        true
    }

    open spec fn from_spec(c: ProjectConfig) -> Project {
        Project { owner: c.owner, repo: c.repo, branch: c.branch, label: c.label }
    }
}

impl From<Project> for ProjectConfig {
    fn from(p: Project) -> (c: ProjectConfig) {
        ProjectConfig { owner: p.owner, repo: p.repo, branch: p.branch, label: p.label }
    }
}

impl vstd::std_specs::convert::FromSpecImpl<Project> for ProjectConfig {
    open spec fn obeys_from_spec() -> bool {
        true
    }

    open spec fn from_spec(p: Project) -> ProjectConfig {
        ProjectConfig { owner: p.owner, repo: p.repo, branch: p.branch, label: p.label }
    }
}

/// Errors raised while resolving, reading, parsing or writing configuration.
#[derive(Debug)]
pub enum ConfigError {
    /// No config directory could be determined for this platform.
    NoConfigDir,
    /// No config file exists at this path.
    NotFound(String),
    /// The file at `path` could not be read.
    Read { path: String, message: String },
    /// The file at `path` is not a valid config.
    Parse { path: String, message: String },
    /// Writing to `path` failed.
    Write { path: String, message: String },
    /// The config could not be serialized.
    Serialize(String),
}

impl ConfigError {
    pub open spec fn spec_message(self) -> Seq<char> {
        match self {
            ConfigError::NoConfigDir => "could not determine a config directory for this platform"@,
            ConfigError::NotFound(p) => "config file not found at "@ + p@,
            ConfigError::Read { path, message } => "failed to read config at "@ + path@ + ": "@
                + message@,
            ConfigError::Parse { path, message } => "failed to parse config at "@ + path@ + ": "@
                + message@,
            ConfigError::Write { path, message } => "failed to write config at "@ + path@ + ": "@
                + message@,
            ConfigError::Serialize(m) => "failed to serialize config: "@ + m@,
        }
    }

    /// Human-readable description.
    pub fn message(&self) -> (r: String)
        ensures
            r@ == self.spec_message(),
    {
        let mut r = String::new();
        match self {
            ConfigError::NoConfigDir => {
                push_str(&mut r, "could not determine a config directory for this platform");
            },
            ConfigError::NotFound(p) => {
                push_str(&mut r, "config file not found at ");
                push_str(&mut r, p.as_str());
            },
            ConfigError::Read { path, message } => {
                push_str(&mut r, "failed to read config at ");
                push_str(&mut r, path.as_str());
                push_str(&mut r, ": ");
                push_str(&mut r, message.as_str());
            },
            ConfigError::Parse { path, message } => {
                push_str(&mut r, "failed to parse config at ");
                push_str(&mut r, path.as_str());
                push_str(&mut r, ": ");
                push_str(&mut r, message.as_str());
            },
            ConfigError::Write { path, message } => {
                push_str(&mut r, "failed to write config at ");
                push_str(&mut r, path.as_str());
                push_str(&mut r, ": ");
                push_str(&mut r, message.as_str());
            },
            ConfigError::Serialize(m) => {
                push_str(&mut r, "failed to serialize config: ");
                push_str(&mut r, m.as_str());
            },
        }
        assert(r@ =~= self.spec_message());
        r
    }
}

/// Where a resolved token came from.
#[derive(Debug, Clone, Copy, PartialEq, Eq, Structural)]
pub enum TokenSource {
    EnvGithubToken,
    EnvGhToken,
    ConfigFile,
    GhCli,
}

impl TokenSource {
    pub open spec fn spec_describe(self) -> Seq<char> {
        match self {
            TokenSource::EnvGithubToken => "GITHUB_TOKEN environment variable"@,
            TokenSource::EnvGhToken => "GH_TOKEN environment variable"@,
            TokenSource::ConfigFile => "config file (settings.token)"@,
            TokenSource::GhCli => "GitHub CLI (`gh auth token`)"@,
        }
    }

    /// Human description, surfaced by `ghs doctor`.
    pub fn describe(self) -> (r: &'static str)
        ensures
            r@ == self.spec_describe(),
    {
        match self {
            TokenSource::EnvGithubToken => "GITHUB_TOKEN environment variable",
            TokenSource::EnvGhToken => "GH_TOKEN environment variable",
            TokenSource::ConfigFile => "config file (settings.token)",
            TokenSource::GhCli => "GitHub CLI (`gh auth token`)",
        }
    }
}

/// Case-insensitive `owner/repo` equality used for de-duplication.
pub open spec fn same_slug(a: ProjectView, owner: Seq<char>, repo: Seq<char>) -> bool {
    lower_seq(a.owner) == lower_seq(owner) && lower_seq(a.repo) == lower_seq(repo)
}

/// Case-insensitive `owner/repo` equality used for de-duplication.
pub fn eq_slug(a_owner: &str, a_repo: &str, b_owner: &str, b_repo: &str) -> (r: bool)
    ensures
        r == (lower_seq(a_owner@) == lower_seq(b_owner@) && lower_seq(a_repo@) == lower_seq(
            b_repo@,
        )),
{
    eq_ignore_ascii_case(a_owner, b_owner) && eq_ignore_ascii_case(a_repo, b_repo)
}

/// Whether some entry of `vs` has the slug `owner/repo` (case-insensitive).
pub open spec fn tracks_slug(vs: Seq<ProjectView>, owner: Seq<char>, repo: Seq<char>) -> bool {
    exists|i: int| 0 <= i < vs.len() && same_slug(#[trigger] vs[i], owner, repo)
}

/// `vs` after adding `p`, unless its slug is already tracked.
pub open spec fn with_added(vs: Seq<ProjectView>, p: ProjectView) -> Seq<ProjectView> {
    if tracks_slug(vs, p.owner, p.repo) {
        vs
    } else {
        vs.push(p)
    }
}

/// No two entries of `vs` share a slug (case-insensitively).
pub open spec fn distinct_slugs(vs: Seq<ProjectView>) -> bool {
    forall|i: int, j: int|
        0 <= i < j < vs.len() ==> !same_slug(#[trigger] vs[i], (#[trigger] vs[j]).owner, vs[j].repo)
}

/// Whether `s` holds something other than whitespace.
pub open spec fn non_blank(s: Seq<char>) -> bool {
    trim_ws(s).len() > 0
}

/// `s` is not blank.
pub fn is_non_blank(s: &str) -> (r: bool)
    ensures
        r == non_blank(s@),
{
    let v = chars_of(s);
    let n = v.len();
    let (a, b) = trim_range(v.as_slice(), 0, n);
    assert(v@.subrange(0, n as int) =~= s@);
    a < b
}

/// The token and its source that the precedence chain selects, given the
/// two environment variables, the file's token, and the GitHub CLI's output.
pub open spec fn token_choice(
    github_token: Option<Seq<char>>,
    gh_token: Option<Seq<char>>,
    file_token: Option<Seq<char>>,
    gh_cli: Option<Seq<char>>,
) -> Option<(Seq<char>, TokenSource)> {
    if github_token matches Some(t) && non_blank(t) {
        Some((github_token->0, TokenSource::EnvGithubToken))
    } else if gh_token matches Some(t) && non_blank(t) {
        Some((gh_token->0, TokenSource::EnvGhToken))
    } else if file_token matches Some(t) && non_blank(t) {
        Some((file_token->0, TokenSource::ConfigFile))
    } else if gh_cli matches Some(t) && non_blank(t) {
        Some((trim_ws(gh_cli->0), TokenSource::GhCli))
    } else {
        None
    }
}

/// View of an optional token with its source.
pub open spec fn token_view(r: Option<(String, TokenSource)>) -> Option<(Seq<char>, TokenSource)> {
    match r {
        Some((t, s)) => Some((t@, s)),
        None => None,
    }
}

/// View of an optional `&str`.
pub open spec fn opt_str_view(o: Option<&str>) -> Option<Seq<char>> {
    match o {
        Some(s) => Some(s@),
        None => None,
    }
}

/// A copy of `s`.
fn owned(s: &str) -> (r: String)
    ensures
        r@ == s@,
{
    let mut r = String::new();
    push_str(&mut r, s);
    assert(r@ =~= s@);
    r
}

/// `trim_ws(s)` as a new string.
fn trimmed(s: &str) -> (r: String)
    ensures
        r@ == trim_ws(s@),
{
    let v = chars_of(s);
    let n = v.len();
    let (a, b) = trim_range(v.as_slice(), 0, n);
    assert(v@.subrange(0, n as int) =~= s@);
    string_of(v.as_slice(), a, b)
}

impl Config {
    /// The default platform config path, e.g.
    /// `~/.config/github-status/config.toml` on Linux. The only failure is
    /// that no platform directory can be determined; a path found is the file
    /// `config.toml` in the platform config directory of [`app_identity`].
    pub fn default_path() -> (r: Result<String, ConfigError>)
        ensures
            r matches Err(e) ==> e is NoConfigDir,
            r matches Ok(p) ==> "config.toml"@.is_suffix_of(p@),
    {
        let (qualifier, organization, application) = app_identity();
        match project_dirs(qualifier, organization, application) {
            Some(dirs) => {
                let dir = platform_config_dir(&dirs);
                proof {
                    reveal_strlit("config.toml");
                }
                let p = path_join(dir.as_str(), "config.toml");
                Ok(p)
            },
            None => Err(ConfigError::NoConfigDir),
        }
    }

    /// Resolve the effective config path (explicit or platform default).
    pub fn resolve_path(path: Option<&str>) -> (r: Result<String, ConfigError>)
        ensures
            match path {
                Some(p) => r matches Ok(q) && q@ == p@,
                None => r matches Err(e) ==> e is NoConfigDir,
            },
    {
        match path {
            Some(p) => Ok(owned(p)),
            None => Self::default_path(),
        }
    }

    /// Settle the outcome of reading the config at `path`: a missing file
    /// yields an empty default, so a first run never fails; any other error
    /// is passed on.
    pub fn load_or_default(path: String, loaded: Result<Config, ConfigError>) -> (r: Result<
        (Config, String),
        ConfigError,
    >)
        ensures
            match loaded {
                Ok(c) => r matches Ok((c2, p)) && c2 == c && p == path,
                Err(ConfigError::NotFound(_)) => r matches Ok((c2, p)) && p == path
                    && default_settings(c2.settings) && c2.projects@.len() == 0,
                Err(e) => r matches Err(e2) && e2 == e,
            },
    {
        match loaded {
            Ok(c) => Ok((c, path)),
            Err(ConfigError::NotFound(_)) => Ok((Config::default(), path)),
            Err(e) => Err(e),
        }
    }

    /// Full text of a saved config file: the header comment, then `body`.
    pub fn file_text(body: &str) -> (r: String)
        ensures
            r@ == CONFIG_HEADER@ + body@,
    {
        let mut r = String::new();
        push_str(&mut r, CONFIG_HEADER);
        push_str(&mut r, body);
        r
    }

    /// Full text of a freshly scaffolded config: the header, the `[settings]`
    /// table with `settings_body`, and commented-out example projects. No
    /// project is tracked.
    pub fn scaffold_text(settings_body: &str) -> (r: String)
        ensures
            r@ == CONFIG_HEADER@ + "[settings]\n"@ + settings_body@ + SCAFFOLD_EXAMPLES@,
    {
        let mut r = String::new();
        push_str(&mut r, CONFIG_HEADER);
        push_str(&mut r, "[settings]\n");
        push_str(&mut r, settings_body);
        push_str(&mut r, SCAFFOLD_EXAMPLES);
        r
    }

    /// Whether some entry has the slug `owner/repo` (case-insensitive).
    fn tracks(&self, owner: &str, repo: &str) -> (r: bool)
        ensures
            r == tracks_slug(config_views(self.projects@), owner@, repo@),
    {
        let mut i: usize = 0;
        while i < self.projects.len()
            invariant
                i <= self.projects@.len(),
                forall|k: int|
                    0 <= k < i ==> !same_slug(
                        #[trigger] config_views(self.projects@)[k],
                        owner@,
                        repo@,
                    ),
            decreases self.projects@.len() - i,
        {
            let p = &self.projects[i];
            if eq_slug(p.owner.as_str(), p.repo.as_str(), owner, repo) {
                assert(same_slug(config_views(self.projects@)[i as int], owner@, repo@));
                return true;
            }
            i = i + 1;
        }
        false
    }

    /// Add a project, de-duplicating by `owner/repo` (case-insensitive).
    /// Returns `true` if it was newly added, `false` if it already existed.
    pub fn add_project(&mut self, project: Project) -> (added: bool)
        ensures
            added == !tracks_slug(config_views(old(self).projects@), project.owner@, project.repo@),
            config_views(final(self).projects@) == with_added(
                config_views(old(self).projects@),
                project@,
            ),
            final(self).settings == old(self).settings,
    {
        if self.tracks(project.owner.as_str(), project.repo.as_str()) {
            return false;
        }
        let ghost before = config_views(self.projects@);
        let entry = ProjectConfig::from_project(project);
        self.projects.push(entry);
        assert(config_views(self.projects@) =~= before.push(entry@));
        true
    }

    /// Keep the entries satisfying `keep`, in order.
    fn retain_where(&mut self, owner: &str, repo: &str, by_owner: bool)
        ensures
            config_views(final(self).projects@) == config_views(old(self).projects@).filter(
                entry_survives(owner@, repo@, by_owner),
            ),
            final(self).settings == old(self).settings,
    {
        let ghost keep = entry_survives(owner@, repo@, by_owner);
        let mut rest: Vec<ProjectConfig> = Vec::new();
        std::mem::swap(&mut rest, &mut self.projects);
        let ghost orig = config_views(rest@);
        let ghost n = orig.len();
        let n0 = rest.len();
        assert(n == n0);
        let owner_t = trimmed(owner);
        let mut kept: Vec<ProjectConfig> = Vec::new();
        let mut i: usize = 0;
        assert(orig.take(0) =~= Seq::<ProjectView>::empty());
        proof {
            reveal(Seq::filter);
            assert(orig.take(0).filter(keep) =~= Seq::<ProjectView>::empty());
        }
        assert(config_views(kept@) =~= Seq::<ProjectView>::empty());
        while rest.len() > 0
            invariant
                i + rest@.len() == n,
                n <= usize::MAX,
                orig.len() == n,
                config_views(rest@) == orig.skip(i as int),
                config_views(kept@) == orig.take(i as int).filter(keep),
                keep == entry_survives(owner@, repo@, by_owner),
                owner_t@ == trim_ws(owner@),
            decreases rest@.len(),
        {
            let ghost r0 = config_views(rest@);
            let x = rest.remove(0);
            assert(r0[0] == x@);
            assert(config_views(rest@) =~= r0.drop_first());
            assert(orig.skip(i as int).drop_first() =~= orig.skip(i + 1));
            assert(orig.take(i + 1).drop_last() =~= orig.take(i as int));
            assert(orig[i as int] == x@);
            let survive = if by_owner {
                !eq_ignore_ascii_case(x.owner.as_str(), owner_t.as_str())
            } else {
                !eq_slug(x.owner.as_str(), x.repo.as_str(), owner, repo)
            };
            assert(survive == keep(x@));
            let ghost k0 = config_views(kept@);
            proof {
                reveal(Seq::filter);
                assert(orig.take(i + 1).last() == x@);
            }
            if survive {
                kept.push(x);
                assert(config_views(kept@) =~= k0.push(x@));
            }
            i = i + 1;
        }
        assert(orig.take(i as int) =~= orig);
        self.projects = kept;
    }

    /// Remove a project by `owner/repo` (case-insensitive). Returns `true` if
    /// a matching project was removed.
    pub fn remove_project(&mut self, owner: &str, repo: &str) -> (removed: bool)
        ensures
            config_views(final(self).projects@) == config_views(old(self).projects@).filter(
                entry_survives(owner@, repo@, false),
            ),
            removed == (final(self).projects@.len() != old(self).projects@.len()),
            final(self).settings == old(self).settings,
    {
        let before = self.projects.len();
        self.retain_where(owner, repo, false);
        self.projects.len() != before
    }

    /// Remove every project belonging to `owner` (case-insensitive) — drop a
    /// whole company/org at once. Returns how many were removed.
    pub fn remove_owner(&mut self, owner: &str) -> (removed: usize)
        ensures
            config_views(final(self).projects@) == config_views(old(self).projects@).filter(
                entry_survives(owner@, owner@, true),
            ),
            removed == old(self).projects@.len() - final(self).projects@.len(),
            final(self).settings == old(self).settings,
    {
        let before = self.projects.len();
        self.retain_where(owner, owner, true);
        proof {
            let v = config_views(old(self).projects@);
            v.lemma_filter_len(entry_survives(owner@, owner@, true));
        }
        before - self.projects.len()
    }

    /// Replace the entire project list.
    pub fn set_projects(&mut self, projects: Vec<Project>)
        ensures
            config_views(final(self).projects@) == projects@.map_values(|p: Project| p@),
            final(self).settings == old(self).settings,
    {
        let mut rest = projects;
        let ghost orig = rest@.map_values(|p: Project| p@);
        let ghost n = orig.len();
        let n0 = rest.len();
        assert(n == n0);
        let mut out: Vec<ProjectConfig> = Vec::new();
        let mut i: usize = 0;
        while rest.len() > 0
            invariant
                i + rest@.len() == n,
                n <= usize::MAX,
                orig.len() == n,
                rest@.map_values(|p: Project| p@) == orig.skip(i as int),
                config_views(out@) == orig.take(i as int),
            decreases rest@.len(),
        {
            let ghost r0 = rest@.map_values(|p: Project| p@);
            let p = rest.remove(0);
            assert(r0[0] == p@);
            assert(rest@.map_values(|p: Project| p@) =~= r0.drop_first());
            assert(orig.skip(i as int).drop_first() =~= orig.skip(i + 1));
            let ghost o0 = config_views(out@);
            let c = ProjectConfig::from_project(p);
            out.push(c);
            assert(config_views(out@) =~= o0.push(c@));
            assert(orig.take(i + 1) =~= orig.take(i as int).push(orig[i as int]));
            i = i + 1;
        }
        assert(orig.take(i as int) =~= orig);
        self.projects = out;
    }

    /// The config's entries as domain [`Project`] values, in order.
    pub fn projects(&self) -> (r: Vec<Project>)
        ensures
            r@.map_values(|p: Project| p@) == config_views(self.projects@),
    {
        let mut r: Vec<Project> = Vec::new();
        let mut i: usize = 0;
        while i < self.projects.len()
            invariant
                i <= self.projects@.len(),
                r@.map_values(|p: Project| p@) == config_views(self.projects@).take(i as int),
            decreases self.projects@.len() - i,
        {
            let ghost r0 = r@.map_values(|p: Project| p@);
            let p = self.projects[i].to_project();
            r.push(p);
            assert(r@.map_values(|p: Project| p@) =~= r0.push(p@));
            assert(config_views(self.projects@).take(i + 1) =~= config_views(self.projects@).take(
                i as int,
            ).push(config_views(self.projects@)[i as int]));
            i = i + 1;
        }
        assert(config_views(self.projects@).take(i as int) =~= config_views(self.projects@));
        r
    }

    /// Resolve the GitHub token along the precedence chain
    /// `GITHUB_TOKEN` > `GH_TOKEN` > `settings.token` > `gh auth token`,
    /// given the two environment variables and the GitHub CLI's output
    /// (blank values are skipped; the CLI's output is trimmed). Returns the
    /// token plus where it came from.
    pub fn resolve_token_source(
        &self,
        github_token: Option<&str>,
        gh_token: Option<&str>,
        gh_cli: Option<&str>,
    ) -> (r: Option<(String, TokenSource)>)
        ensures
            token_view(r) == token_choice(
                opt_str_view(github_token),
                opt_str_view(gh_token),
                opt_view(self.settings.token),
                opt_str_view(gh_cli),
            ),
    {
        if let Some(t) = github_token {
            if is_non_blank(t) {
                return Some((owned(t), TokenSource::EnvGithubToken));
            }
        }
        if let Some(t) = gh_token {
            if is_non_blank(t) {
                return Some((owned(t), TokenSource::EnvGhToken));
            }
        }
        if let Some(t) = &self.settings.token {
            if is_non_blank(t.as_str()) {
                return Some((t.clone(), TokenSource::ConfigFile));
            }
        }
        if let Some(t) = gh_cli {
            if is_non_blank(t) {
                return Some((trimmed(t), TokenSource::GhCli));
            }
        }
        None
    }

    /// Just the token, dropping its source. See [`Config::resolve_token_source`].
    pub fn resolve_token(
        &self,
        github_token: Option<&str>,
        gh_token: Option<&str>,
        gh_cli: Option<&str>,
    ) -> (r: Option<String>)
        ensures
            match token_choice(
                opt_str_view(github_token),
                opt_str_view(gh_token),
                opt_view(self.settings.token),
                opt_str_view(gh_cli),
            ) {
                Some((t, _)) => r matches Some(s) && s@ == t,
                None => r is None,
            },
    {
        match self.resolve_token_source(github_token, gh_token, gh_cli) {
            Some((t, _)) => Some(t),
            None => None,
        }
    }
}

/// Which entries survive a removal: those not matching `owner/repo`, or
/// (`by_owner`) those not owned by the trimmed `owner`.
pub open spec fn entry_survives(owner: Seq<char>, repo: Seq<char>, by_owner: bool) -> spec_fn(
    ProjectView,
) -> bool {
    |p: ProjectView|
        if by_owner {
            lower_seq(p.owner) != lower_seq(trim_ws(owner))
        } else {
            !same_slug(p, owner, repo)
        }
}

/// Adding a project tracks its slug; adding it again changes nothing; and
/// adding never creates a second entry for a slug.
pub proof fn law_add_project_dedupes(vs: Seq<ProjectView>, p: ProjectView)
    ensures
        tracks_slug(with_added(vs, p), p.owner, p.repo),
        with_added(with_added(vs, p), p) == with_added(vs, p),
        distinct_slugs(vs) ==> distinct_slugs(with_added(vs, p)),
{
    let w = with_added(vs, p);
    if !tracks_slug(vs, p.owner, p.repo) {
        assert(same_slug(w[vs.len() as int], p.owner, p.repo));
        if distinct_slugs(vs) {
            assert forall|i: int, j: int| 0 <= i < j < w.len() implies !same_slug(
                #[trigger] w[i],
                (#[trigger] w[j]).owner,
                w[j].repo,
            ) by {
                if j == vs.len() {
                    assert(w[i] == vs[i]);
                    if same_slug(w[i], p.owner, p.repo) {
                        assert(same_slug(vs[i], p.owner, p.repo));
                    }
                } else {
                    assert(w[i] == vs[i] && w[j] == vs[j]);
                }
            }
        }
    }
}

/// After removing `owner/repo`, no entry with that slug is left, and every
/// other entry is kept.
pub proof fn law_remove_project_untracks(vs: Seq<ProjectView>, owner: Seq<char>, repo: Seq<char>)
    ensures
        !tracks_slug(vs.filter(entry_survives(owner, repo, false)), owner, repo),
        forall|i: int|
            0 <= i < vs.len() && !same_slug(vs[i], owner, repo) ==> #[trigger] vs.filter(
                entry_survives(owner, repo, false),
            ).contains(vs[i]),
{
    let keep = entry_survives(owner, repo, false);
    let f = vs.filter(keep);
    broadcast use vstd::seq_lib::group_filter_ensures;
    assert forall|i: int| 0 <= i < f.len() implies !same_slug(#[trigger] f[i], owner, repo) by {
        assert(keep(f[i]));
    }
    assert forall|i: int|
        0 <= i < vs.len() && !same_slug(vs[i], owner, repo) implies #[trigger] f.contains(vs[i]) by {
        assert(keep(vs[i]));
    }
}

/// After removing an owner, no entry of that owner is left, and every entry
/// of another owner is kept.
pub proof fn law_remove_owner_clears_owner(vs: Seq<ProjectView>, owner: Seq<char>)
    ensures
        forall|i: int|
            0 <= i < vs.filter(entry_survives(owner, owner, true)).len() ==> lower_seq(
                (#[trigger] vs.filter(entry_survives(owner, owner, true))[i]).owner,
            ) != lower_seq(trim_ws(owner)),
        forall|i: int|
            0 <= i < vs.len() && lower_seq(vs[i].owner) != lower_seq(trim_ws(owner))
                ==> #[trigger] vs.filter(entry_survives(owner, owner, true)).contains(vs[i]),
{
    let keep = entry_survives(owner, owner, true);
    let f = vs.filter(keep);
    broadcast use vstd::seq_lib::group_filter_ensures;
    assert forall|i: int| 0 <= i < f.len() implies lower_seq((#[trigger] f[i]).owner) != lower_seq(
        trim_ws(owner),
    ) by {
        assert(keep(f[i]));
    }
    assert forall|i: int|
        0 <= i < vs.len() && lower_seq(vs[i].owner) != lower_seq(trim_ws(owner)) implies #[trigger] f.contains(
        vs[i],
    ) by {
        assert(keep(vs[i]));
    }
}

} // verus!

//! Aggregate: the fetched status of a project at a point in time, plus the
//! adaptive-polling and display-ordering rules that depend on it.

use std::cmp::Ordering;
use vstd::prelude::*;
use super::poll::{two_pow, PollIntervals, PollTier};
use super::project::Project;
use super::run::{duplicate_runs, WorkflowRun};
use super::status::RunState;
use crate::text::chars_of;

verus! {

/// How recent (seconds) a run must be for a project to count as "recently active".
pub const RECENT_ACTIVITY_WINDOW_SECS: i64 = 1800;

/// Largest whole-second wait a due time can be pushed out by; longer waits
/// are treated as zero.
pub const MAX_DELTA_SECS: u64 = 9_223_372_036_854_775;

/// Loading lifecycle of a project's status.
#[derive(Debug, Clone, PartialEq, Eq)]
pub enum LoadState {
    /// Never fetched yet.
    Idle,
    /// A fetch is in flight.
    Loading,
    /// Fetched successfully, carrying the latest runs (newest first).
    Loaded { runs: Vec<WorkflowRun>, fetched_at: i64 },
    /// Fetch failed; carries a human-readable message.
    Failed { message: String },
}

/// Mathematical view of a [`LoadState`].
pub enum LoadView {
    Idle,
    Loading,
    Loaded { runs: Seq<WorkflowRun>, fetched_at: i64 },
    Failed { message: Seq<char> },
}

impl View for LoadState {
    type V = LoadView;

    open spec fn view(&self) -> LoadView {
        match self {
            LoadState::Idle => LoadView::Idle,
            LoadState::Loading => LoadView::Loading,
            LoadState::Loaded { runs, fetched_at } => LoadView::Loaded {
                runs: runs@,
                fetched_at: *fetched_at,
            },
            LoadState::Failed { message } => LoadView::Failed { message: message@ },
        }
    }
}

impl Default for LoadState {
    fn default() -> (r: LoadState)
        ensures
            r is Idle,
    {
        LoadState::Idle
    }
}

/// A project paired with its current load state and polling bookkeeping.
#[derive(Debug, Clone)]
pub struct ProjectStatus {
    pub project: Project,
    pub load: LoadState,
    /// When a fetch was last *started* for this project (Unix seconds).
    pub last_attempt_at: Option<i64>,
    /// Number of consecutive failed fetches (drives exponential backoff).
    pub consecutive_errors: u32,
}

/// Mathematical view of a [`ProjectStatus`].
pub struct ProjectStatusView {
    pub project: Project,
    pub load: LoadView,
    pub last_attempt_at: Option<i64>,
    pub consecutive_errors: u32,
}

impl View for ProjectStatus {
    type V = ProjectStatusView;

    open spec fn view(&self) -> ProjectStatusView {
        ProjectStatusView {
            project: self.project,
            load: self.load@,
            last_attempt_at: self.last_attempt_at,
            consecutive_errors: self.consecutive_errors,
        }
    }
}

/// Views of a sequence of statuses.
pub open spec fn views(s: Seq<ProjectStatus>) -> Seq<ProjectStatusView> {
    s.map_values(|p: ProjectStatus| p@)
}

/// `x` saturated into `i64`.
pub open spec fn sat_i64(x: int) -> i64 {
    if x > i64::MAX {
        i64::MAX
    } else if x < i64::MIN {
        i64::MIN
    } else {
        x as i64
    }
}

/// Sign of `x` as `-1`, `0` or `1`.
pub open spec fn sign(x: int) -> int {
    if x < 0 {
        -1
    } else if x > 0 {
        1
    } else {
        0
    }
}

/// Lexicographic comparison of character sequences by code point (the same
/// order as comparing their UTF-8 bytes): `-1`, `0` or `1`.
pub open spec fn lex_rank(a: Seq<char>, b: Seq<char>) -> int
    decreases a.len(),
{
    if a.len() == 0 {
        if b.len() == 0 {
            0
        } else {
            -1
        }
    } else if b.len() == 0 {
        1
    } else if (a[0] as u32) < (b[0] as u32) {
        -1
    } else if (a[0] as u32) > (b[0] as u32) {
        1
    } else {
        lex_rank(a.drop_first(), b.drop_first())
    }
}

/// Newest-first comparison of optional activity timestamps; no activity last.
pub open spec fn activity_rank(a: Option<i64>, b: Option<i64>) -> int {
    match (a, b) {
        (Some(x), Some(y)) => sign(y - x),
        (Some(_), None) => -1,
        (None, Some(_)) => 1,
        (None, None) => 0,
    }
}

impl ProjectStatusView {
    pub open spec fn spec_latest_run(self) -> Option<WorkflowRun> {
        match self.load {
            LoadView::Loaded { runs, .. } => if runs.len() > 0 {
                Some(runs[0])
            } else {
                None
            },
            _ => None,
        }
    }

    pub open spec fn spec_headline_state(self) -> Option<RunState> {
        match self.spec_latest_run() {
            Some(r) => Some(r.state),
            None => None,
        }
    }

    pub open spec fn spec_last_activity(self) -> Option<i64> {
        match self.spec_latest_run() {
            Some(r) => Some(r.updated_at),
            None => None,
        }
    }

    pub open spec fn spec_fetched_at(self) -> Option<i64> {
        match self.load {
            LoadView::Loaded { fetched_at, .. } => Some(fetched_at),
            _ => None,
        }
    }

    /// The polling tier of this project at time `now`.
    pub open spec fn spec_poll_tier(self, now: i64) -> PollTier {
        if self.consecutive_errors > 0 {
            PollTier::Backoff
        } else {
            match self.load {
                LoadView::Idle => PollTier::Idle,
                LoadView::Loading => PollTier::Active,
                LoadView::Failed { .. } => PollTier::Backoff,
                LoadView::Loaded { runs, .. } => if runs.len() == 0 {
                    PollTier::Dormant
                } else if runs[0].state.spec_is_active() {
                    PollTier::Active
                } else if now - runs[0].updated_at <= RECENT_ACTIVITY_WINDOW_SECS
                    || runs[0].state.spec_is_failure() {
                    PollTier::Recent
                } else {
                    PollTier::Stable
                },
            }
        }
    }

    /// When this project next becomes due; `None` means "due now".
    pub open spec fn spec_due_at(self, intervals: PollIntervals, now: i64) -> Option<i64> {
        match self.last_attempt_at {
            None => None,
            Some(last) => {
                let wait = intervals.spec_interval_for(
                    self.spec_poll_tier(now),
                    self.consecutive_errors,
                );
                let delta: int = if wait <= MAX_DELTA_SECS { wait as int } else { 0 };
                Some(sat_i64(last + delta))
            },
        }
    }

    /// Whether this project is due for a (re)fetch at `now`.
    pub open spec fn spec_is_due(self, intervals: PollIntervals, now: i64) -> bool {
        !(self.load is Loading) && match self.spec_due_at(intervals, now) {
            None => true,
            Some(at) => now >= at,
        }
    }

    /// Coarse attention bucket (lower = more urgent).
    pub open spec fn spec_attention_bucket(self) -> u8 {
        match self.load {
            LoadView::Loaded { .. } => match self.spec_headline_state() {
                Some(s) => if s.spec_is_failure() {
                    0
                } else if s is ActionRequired {
                    1
                } else if s.spec_is_active() {
                    2
                } else {
                    3
                },
                None => 4,
            },
            LoadView::Failed { .. } => 5,
            LoadView::Loading => 6,
            LoadView::Idle => 7,
        }
    }

    /// Display order: attention bucket, then newest activity, then owner,
    /// then repo. `-1` means `self` is listed first.
    pub open spec fn display_rank(self, other: ProjectStatusView) -> int {
        let b = sign(self.spec_attention_bucket() - other.spec_attention_bucket());
        if b != 0 {
            b
        } else {
            let a = activity_rank(self.spec_last_activity(), other.spec_last_activity());
            if a != 0 {
                a
            } else {
                let o = lex_rank(self.project.owner@, other.project.owner@);
                if o != 0 {
                    o
                } else {
                    lex_rank(self.project.repo@, other.project.repo@)
                }
            }
        }
    }

}

impl ProjectStatus {
    pub fn new(project: Project) -> (r: ProjectStatus)
        ensures
            r == (ProjectStatus {
                project: project,
                load: LoadState::Idle,
                last_attempt_at: None,
                consecutive_errors: 0,
            }),
    {
        ProjectStatus { project, load: LoadState::Idle, last_attempt_at: None, consecutive_errors: 0 }
    }

    /// Construct already-loaded with prior runs (used to hydrate from cache).
    /// The cache fetch time counts as the last attempt.
    pub fn from_cache(project: Project, runs: Vec<WorkflowRun>, fetched_at: i64) -> (r:
        ProjectStatus)
        ensures
            r == (ProjectStatus {
                project: project,
                load: LoadState::Loaded { runs: runs, fetched_at: fetched_at },
                last_attempt_at: Some(fetched_at),
                consecutive_errors: 0,
            }),
    {
        ProjectStatus {
            project,
            load: LoadState::Loaded { runs, fetched_at },
            last_attempt_at: Some(fetched_at),
            consecutive_errors: 0,
        }
    }

    /// An equal copy of this status.
    pub fn duplicate(&self) -> (r: ProjectStatus)
        ensures
            r@ == self@,
    {
        let load = match &self.load {
            LoadState::Idle => LoadState::Idle,
            LoadState::Loading => LoadState::Loading,
            LoadState::Loaded { runs, fetched_at } => LoadState::Loaded {
                runs: duplicate_runs(runs),
                fetched_at: *fetched_at,
            },
            LoadState::Failed { message } => LoadState::Failed { message: message.clone() },
        };
        ProjectStatus {
            project: self.project.duplicate(),
            load,
            last_attempt_at: self.last_attempt_at,
            consecutive_errors: self.consecutive_errors,
        }
    }

    /// The most recent run, if loaded.
    pub fn latest_run(&self) -> (r: Option<&WorkflowRun>)
        ensures
            match r {
                Some(run) => self@.spec_latest_run() == Some(*run),
                None => self@.spec_latest_run() is None,
            },
    {
        match &self.load {
            LoadState::Loaded { runs, .. } => if runs.len() > 0 {
                Some(&runs[0])
            } else {
                None
            },
            _ => None,
        }
    }

    /// The headline state for this project (state of its latest run).
    pub fn headline_state(&self) -> (r: Option<RunState>)
        ensures
            r == self@.spec_headline_state(),
    {
        match self.latest_run() {
            Some(run) => Some(run.state),
            None => None,
        }
    }

    /// Timestamp of the latest CI activity, if loaded.
    pub fn last_activity(&self) -> (r: Option<i64>)
        ensures
            r == self@.spec_last_activity(),
    {
        match self.latest_run() {
            Some(run) => Some(run.updated_at),
            None => None,
        }
    }

    /// When this project's data was last successfully fetched, if ever.
    pub fn fetched_at(&self) -> (r: Option<i64>)
        ensures
            r == self@.spec_fetched_at(),
    {
        match &self.load {
            LoadState::Loaded { fetched_at, .. } => Some(*fetched_at),
            _ => None,
        }
    }

    /// Classify this project into a [`PollTier`] from its state + history.
    pub fn poll_tier(&self, now: i64) -> (r: PollTier)
        ensures
            r == self@.spec_poll_tier(now),
    {
        if self.consecutive_errors > 0 {
            return PollTier::Backoff;
        }
        match &self.load {
            LoadState::Idle => PollTier::Idle,
            LoadState::Loading => PollTier::Active,
            LoadState::Failed { .. } => PollTier::Backoff,
            LoadState::Loaded { runs, .. } => {
                if runs.len() == 0 {
                    return PollTier::Dormant;
                }
                let latest = &runs[0];
                if latest.state.is_active() {
                    return PollTier::Active;
                }
                let age: i128 = (now as i128) - (latest.updated_at as i128);
                let recent = age <= RECENT_ACTIVITY_WINDOW_SECS as i128;
                if recent || latest.state.is_failure() {
                    PollTier::Recent
                } else {
                    PollTier::Stable
                }
            },
        }
    }

    /// When this project next becomes due for a fetch. `None` means "due now".
    pub fn due_at(&self, intervals: &PollIntervals, now: i64) -> (r: Option<i64>)
        ensures
            r == self@.spec_due_at(*intervals, now),
    {
        let last = match self.last_attempt_at {
            Some(t) => t,
            None => return None,
        };
        let tier = self.poll_tier(now);
        let wait = intervals.interval_for(tier, self.consecutive_errors);
        let delta: i64 = if wait <= MAX_DELTA_SECS {
            wait as i64
        } else {
            0
        };
        let due: i128 = (last as i128) + (delta as i128);
        let at: i64 = if due > i64::MAX as i128 {
            i64::MAX
        } else if due < i64::MIN as i128 {
            i64::MIN
        } else {
            due as i64
        };
        Some(at)
    }

    /// Whether this project is due for a (re)fetch at `now`.
    pub fn is_due(&self, intervals: &PollIntervals, now: i64) -> (r: bool)
        ensures
            r == self@.spec_is_due(*intervals, now),
    {
        if matches!(self.load, LoadState::Loading) {
            return false;
        }
        match self.due_at(intervals, now) {
            None => true,
            Some(at) => now >= at,
        }
    }

    /// Coarse attention bucket (lower = more urgent).
    fn attention_bucket(&self) -> (r: u8)
        ensures
            r == self@.spec_attention_bucket(),
    {
        match &self.load {
            LoadState::Loaded { .. } => match self.headline_state() {
                Some(s) => if s.is_failure() {
                    0
                } else if matches!(s, RunState::ActionRequired) {
                    1
                } else if s.is_active() {
                    2
                } else {
                    3
                },
                None => 4,
            },
            LoadState::Failed { .. } => 5,
            LoadState::Loading => 6,
            LoadState::Idle => 7,
        }
    }

    /// [`ProjectStatusView::display_rank`] computed.
    pub fn display_rank_of(&self, other: &ProjectStatus) -> (r: i8)
        ensures
            r == self@.display_rank(other@),
    {
        let b1 = self.attention_bucket();
        let b2 = other.attention_bucket();
        if b1 < b2 {
            return -1;
        }
        if b1 > b2 {
            return 1;
        }
        let a = match (self.last_activity(), other.last_activity()) {
            (Some(x), Some(y)) => if y < x {
                -1i8
            } else if y > x {
                1i8
            } else {
                0i8
            },
            (Some(_), None) => -1i8,
            (None, Some(_)) => 1i8,
            (None, None) => 0i8,
        };
        if a != 0 {
            return a;
        }
        let o = lex_rank_str(self.project.owner.as_str(), other.project.owner.as_str());
        if o != 0 {
            return o;
        }
        lex_rank_str(self.project.repo.as_str(), other.project.repo.as_str())
    }

    /// Total ordering for the display list: attention bucket (failures
    /// first), most-recent CI activity (newest first), then owner and repo.
    pub fn cmp_display(&self, other: &Self) -> (r: Ordering)
        ensures
            r == rank_ordering(self@.display_rank(other@)),
    {
        let k = self.display_rank_of(other);
        if k < 0 {
            Ordering::Less
        } else if k > 0 {
            Ordering::Greater
        } else {
            Ordering::Equal
        }
    }
}

/// The [`Ordering`] a rank of `-1`, `0` or `1` stands for.
pub open spec fn rank_ordering(k: int) -> Ordering {
    if k < 0 {
        Ordering::Less
    } else if k > 0 {
        Ordering::Greater
    } else {
        Ordering::Equal
    }
}

/// [`lex_rank`] computed on two strings.
pub fn lex_rank_str(a: &str, b: &str) -> (r: i8)
    ensures
        r == lex_rank(a@, b@),
{
    let va = chars_of(a);
    let vb = chars_of(b);
    let mut i: usize = 0;
    assert(a@.skip(0) =~= a@);
    assert(b@.skip(0) =~= b@);
    while i < va.len() && i < vb.len()
        invariant
            va@ == a@,
            vb@ == b@,
            i <= va@.len(),
            i <= vb@.len(),
            lex_rank(a@, b@) == lex_rank(a@.skip(i as int), b@.skip(i as int)),
        decreases va@.len() - i,
    {
        let x = va[i] as u32;
        let y = vb[i] as u32;
        assert(a@.skip(i as int)[0] == a@[i as int]);
        assert(b@.skip(i as int)[0] == b@[i as int]);
        if x < y {
            return -1;
        }
        if x > y {
            return 1;
        }
        assert(a@.skip(i as int).drop_first() =~= a@.skip(i + 1));
        assert(b@.skip(i as int).drop_first() =~= b@.skip(i + 1));
        i = i + 1;
    }
    if i < va.len() {
        1
    } else if i < vb.len() {
        -1
    } else {
        0
    }
}

/// `s` is in display order.
pub open spec fn display_sorted(s: Seq<ProjectStatusView>) -> bool {
    forall|i: int, j: int| 0 <= i < j < s.len() ==> #[trigger] s[i].display_rank(#[trigger] s[j]) <= 0
}

pub proof fn lemma_lex_rank_props(a: Seq<char>, b: Seq<char>)
    ensures
        lex_rank(a, b) == -lex_rank(b, a),
        -1 <= lex_rank(a, b) <= 1,
    decreases a.len(),
{
    if a.len() > 0 && b.len() > 0 && (a[0] as u32) == (b[0] as u32) {
        lemma_lex_rank_props(a.drop_first(), b.drop_first());
    }
}

pub proof fn lemma_lex_rank_refl(a: Seq<char>)
    ensures
        lex_rank(a, a) == 0,
    decreases a.len(),
{
    if a.len() > 0 {
        lemma_lex_rank_refl(a.drop_first());
    }
}

pub proof fn lemma_lex_rank_trans(a: Seq<char>, b: Seq<char>, c: Seq<char>)
    requires
        lex_rank(a, b) <= 0,
        lex_rank(b, c) <= 0,
    ensures
        lex_rank(a, c) <= 0,
        lex_rank(a, b) < 0 || lex_rank(b, c) < 0 ==> lex_rank(a, c) < 0,
    decreases a.len(),
{
    if a.len() > 0 && b.len() > 0 && c.len() > 0 {
        if (a[0] as u32) == (b[0] as u32) && (b[0] as u32) == (c[0] as u32) {
            lemma_lex_rank_trans(a.drop_first(), b.drop_first(), c.drop_first());
        }
    }
}

/// Sequences ranked level are equal.
pub proof fn lemma_lex_rank_zero(a: Seq<char>, b: Seq<char>)
    requires
        lex_rank(a, b) == 0,
    ensures
        a == b,
    decreases a.len(),
{
    if a.len() > 0 && b.len() > 0 {
        assert(a[0] as u32 == b[0] as u32);
        vstd::utf8::char_u32_cast(a[0], a[0] as u32);
        vstd::utf8::char_u32_cast(b[0], b[0] as u32);
        lemma_lex_rank_zero(a.drop_first(), b.drop_first());
        assert(a =~= seq![a[0]] + a.drop_first());
        assert(b =~= seq![b[0]] + b.drop_first());
    } else {
        assert(a =~= b);
    }
}

/// Display order is a total preorder on project statuses: every status is
/// ranked level with itself, swapping the pair negates the rank, and two
/// "no later than" steps compose (strictly, if either step is strict).
pub proof fn law_display_order_total_preorder(
    a: ProjectStatusView,
    b: ProjectStatusView,
    c: ProjectStatusView,
)
    ensures
        a.display_rank(a) == 0,
        a.display_rank(b) == -b.display_rank(a),
        -1 <= a.display_rank(b) <= 1,
        a.display_rank(b) <= 0 && b.display_rank(c) <= 0 ==> a.display_rank(c) <= 0,
        (a.display_rank(b) < 0 && b.display_rank(c) <= 0) || (a.display_rank(b) <= 0
            && b.display_rank(c) < 0) ==> a.display_rank(c) < 0,
{
    lemma_lex_rank_refl(a.project.owner@);
    lemma_lex_rank_refl(a.project.repo@);
    lemma_lex_rank_props(a.project.owner@, b.project.owner@);
    lemma_lex_rank_props(a.project.repo@, b.project.repo@);
    lemma_lex_rank_props(b.project.owner@, c.project.owner@);
    lemma_lex_rank_props(b.project.repo@, c.project.repo@);
    lemma_lex_rank_props(a.project.owner@, c.project.owner@);
    lemma_lex_rank_props(a.project.repo@, c.project.repo@);
    if lex_rank(a.project.owner@, b.project.owner@) <= 0 && lex_rank(
        b.project.owner@,
        c.project.owner@,
    ) <= 0 {
        lemma_lex_rank_trans(a.project.owner@, b.project.owner@, c.project.owner@);
    }
    if lex_rank(a.project.repo@, b.project.repo@) <= 0 && lex_rank(
        b.project.repo@,
        c.project.repo@,
    ) <= 0 {
        lemma_lex_rank_trans(a.project.repo@, b.project.repo@, c.project.repo@);
    }
}

/// A project whose latest run failed, timed out or was cancelled is listed
/// before every project whose latest run did not end that way (or that has
/// no run at all), whatever their activity and names: `cmp_display` answers
/// `Less`.
pub proof fn law_failing_latest_run_first(a: ProjectStatusView, b: ProjectStatusView)
    requires
        a.spec_headline_state() matches Some(sa) && (sa is Failed || sa is TimedOut
            || sa is Cancelled),
        !(b.spec_headline_state() matches Some(sb) && (sb is Failed || sb is TimedOut
            || sb is Cancelled)),
    ensures
        a.display_rank(b) < 0,
        rank_ordering(a.display_rank(b)) == Ordering::Less,
{
}

/// The polling tier of a project: any error streak backs off; otherwise a
/// never-fetched project is idle, one being fetched or whose newest run is in
/// progress or queued is active, one fetched with no runs is dormant, one
/// whose newest run failed, timed out or was cancelled, or changed within
/// the recent window, is recent, and any other is stable.
pub proof fn law_poll_tier_rules(p: ProjectStatusView, now: i64)
    ensures
        p.consecutive_errors > 0 ==> p.spec_poll_tier(now) is Backoff,
        p.consecutive_errors == 0 ==> match p.load {
            LoadView::Idle => p.spec_poll_tier(now) is Idle,
            LoadView::Loading => p.spec_poll_tier(now) is Active,
            LoadView::Failed { .. } => p.spec_poll_tier(now) is Backoff,
            LoadView::Loaded { runs, .. } => if runs.len() == 0 {
                p.spec_poll_tier(now) is Dormant
            } else {
                let s = runs[0].state;
                if s is InProgress || s is Queued {
                    p.spec_poll_tier(now) is Active
                } else if s is Failed || s is TimedOut || s is Cancelled {
                    p.spec_poll_tier(now) is Recent
                } else if now - runs[0].updated_at <= RECENT_ACTIVITY_WINDOW_SECS {
                    p.spec_poll_tier(now) is Recent
                } else {
                    p.spec_poll_tier(now) is Stable
                }
            },
        },
{
}

/// After `e > 0` consecutive errors a project backs off exponentially: it is
/// next due `min(backoff_cap, backoff_base × 2^(e-1))` seconds after its last
/// attempt (the exponent stops growing at 16; the time saturates at the end
/// of `i64`), whatever its load and `now`.
pub proof fn law_backoff_due_doubles(p: ProjectStatusView, intervals: PollIntervals, now: i64, last: i64)
    requires
        p.last_attempt_at == Some(last),
        p.consecutive_errors > 0,
        intervals.backoff_cap <= MAX_DELTA_SECS,
    ensures
        ({
            let e = p.consecutive_errors;
            let k: nat = if e - 1 <= 16 { (e - 1) as nat } else { 16 };
            let scaled: int = intervals.backoff_base * two_pow(k);
            let wait: int = if scaled <= intervals.backoff_cap { scaled } else { intervals.backoff_cap as int };
            p.spec_due_at(intervals, now) == Some(sat_i64(last + wait))
        }),
{
}

/// Comparing in display order is antisymmetric as an `Ordering`: swapping
/// the two statuses reverses what `cmp_display` answers, and a status is
/// `Equal` to itself.
pub proof fn law_cmp_display_reverses(a: ProjectStatusView, b: ProjectStatusView)
    ensures
        rank_ordering(a.display_rank(b)) == match rank_ordering(b.display_rank(a)) {
            Ordering::Less => Ordering::Greater,
            Ordering::Equal => Ordering::Equal,
            Ordering::Greater => Ordering::Less,
        },
        rank_ordering(a.display_rank(a)) == Ordering::Equal,
{
    law_display_order_total_preorder(a, b, a);
}

/// The entries of `s` that rank level with `x` in display order, in their
/// order in `s`.
pub open spec fn ties(s: Seq<ProjectStatusView>, x: ProjectStatusView) -> Seq<ProjectStatusView> {
    s.filter(|y: ProjectStatusView| x.display_rank(y) == 0)
}

/// `y` alone, if it ranks level with `x`; nothing otherwise.
pub open spec fn tie_of(y: ProjectStatusView, x: ProjectStatusView) -> Seq<ProjectStatusView> {
    if x.display_rank(y) == 0 {
        seq![y]
    } else {
        Seq::empty()
    }
}

proof fn lemma_ties_prepend(y: ProjectStatusView, s: Seq<ProjectStatusView>, x: ProjectStatusView)
    ensures
        ties(seq![y] + s, x) == tie_of(y, x) + ties(s, x),
{
    s.lemma_filter_prepend(y, |z: ProjectStatusView| x.display_rank(z) == 0);
}

proof fn lemma_ties_empty(s: Seq<ProjectStatusView>, x: ProjectStatusView)
    requires
        forall|i: int| 0 <= i < s.len() ==> x.display_rank(#[trigger] s[i]) != 0,
    ensures
        ties(s, x) == Seq::<ProjectStatusView>::empty(),
    decreases s.len(),
{
    reveal(Seq::filter);
    if s.len() > 0 {
        lemma_ties_empty(s.drop_last(), x);
        assert(s.drop_last().filter(|y: ProjectStatusView| x.display_rank(y) == 0) =~= ties(s.drop_last(), x));
        assert(x.display_rank(s[s.len() - 1]) != 0);
    } else {
        assert(ties(s, x) =~= Seq::<ProjectStatusView>::empty());
    }
}

/// Inserting `y` at its insertion point in a display-sorted sequence puts it
/// after every entry it ties with.
proof fn lemma_ties_insert(out0: Seq<ProjectStatusView>, k: int, y: ProjectStatusView, x: ProjectStatusView)
    requires
        0 <= k <= out0.len(),
        display_sorted(out0),
        k < out0.len() ==> y.display_rank(out0[k]) < 0,
    ensures
        ties(out0.insert(k, y), x) == ties(out0, x) + tie_of(y, x),
{
    let pre = out0.take(k);
    let post = out0.skip(k);
    let p = |z: ProjectStatusView| x.display_rank(z) == 0;
    assert(out0.insert(k, y) =~= pre + (seq![y] + post));
    assert(out0 =~= pre + post);
    Seq::filter_distributes_over_add(pre, seq![y] + post, p);
    Seq::filter_distributes_over_add(pre, post, p);
    lemma_ties_prepend(y, post, x);
    if x.display_rank(y) == 0 {
        assert forall|i: int| 0 <= i < post.len() implies x.display_rank(#[trigger] post[i]) != 0 by {
            assert(post[i] == out0[k + i]);
            if i > 0 {
                assert(out0[k].display_rank(out0[k + i]) <= 0);
            }
            law_display_order_total_preorder(y, out0[k], out0[k + i]);
            law_display_order_total_preorder(x, y, out0[k + i]);
        }
        lemma_ties_empty(post, x);
        assert(ties(out0.insert(k, y), x) =~= ties(out0, x) + tie_of(y, x));
    } else {
        assert(ties(out0.insert(k, y), x) =~= ties(out0, x) + tie_of(y, x));
    }
}

/// First position in the display-sorted `out` whose element `x` must precede.
fn insertion_point(out: &Vec<ProjectStatus>, x: &ProjectStatus) -> (k: usize)
    ensures
        k <= out@.len(),
        forall|i: int| 0 <= i < k ==> x@.display_rank(#[trigger] out@[i]@) >= 0,
        k < out@.len() ==> x@.display_rank(out@[k as int]@) < 0,
{
    let mut k: usize = 0;
    while k < out.len()
        invariant
            k <= out@.len(),
            forall|i: int| 0 <= i < k ==> x@.display_rank(#[trigger] out@[i]@) >= 0,
        decreases out@.len() - k,
    {
        if x.display_rank_of(&out[k]) < 0 {
            return k;
        }
        k = k + 1;
    }
    k
}

/// Stable insertion sort of `v` into display order: entries that rank level
/// keep their relative order.
pub fn sort_for_display(v: Vec<ProjectStatus>) -> (out: Vec<ProjectStatus>)
    ensures
        views(out@).to_multiset() == views(v@).to_multiset(),
        out@.len() == v@.len(),
        display_sorted(views(out@)),
        forall|x: ProjectStatusView| #[trigger] ties(views(out@), x) == ties(views(v@), x),
{
    broadcast use vstd::seq_lib::group_to_multiset_ensures;
    broadcast use vstd::multiset::group_multiset_axioms;

    let ghost orig = views(v@);
    let mut inp = v;
    let mut out: Vec<ProjectStatus> = Vec::new();
    assert(views(out@) =~= Seq::<ProjectStatusView>::empty());
    assert(views(out@).to_multiset().add(views(inp@).to_multiset()) =~= orig.to_multiset());
    assert forall|x: ProjectStatusView| #[trigger] ties(orig, x) == ties(views(out@), x) + ties(views(inp@), x) by {
        reveal(Seq::filter);
        assert(ties(views(out@), x) =~= Seq::<ProjectStatusView>::empty());
        assert(ties(orig, x) =~= ties(views(out@), x) + ties(views(inp@), x));
    }
    while inp.len() > 0
        invariant
            views(out@).to_multiset().add(views(inp@).to_multiset()) == orig.to_multiset(),
            display_sorted(views(out@)),
            forall|x: ProjectStatusView| #[trigger] ties(orig, x) == ties(views(out@), x) + ties(views(inp@), x),
        decreases inp@.len(),
    {
        let ghost in0 = views(inp@);
        let ghost out0 = views(out@);
        let ghost out0_raw = out@;
        let x = inp.remove(0);
        assert(in0.remove(0) =~= views(inp@));
        let k = insertion_point(&out, &x);
        out.insert(k, x);
        proof {
            let w = views(out@);
            assert(w =~= out0.insert(k as int, x@));
            w.to_multiset_ensures();
            in0.to_multiset_ensures();
            assert(w.remove(k as int) =~= out0);
            assert(w.contains(x@)) by {
                assert(w[k as int] == x@);
            }
            assert(w.remove(k as int).to_multiset() == w.to_multiset().remove(x@));
            assert(w.to_multiset().count(x@) > 0);
            assert(w.to_multiset() =~= out0.to_multiset().insert(x@));
            assert(in0.contains(x@)) by {
                assert(in0[0] == x@);
            }
            assert(views(inp@).to_multiset() == in0.to_multiset().remove(x@));
            assert(in0.to_multiset().count(x@) > 0);
            assert(views(out@).to_multiset().add(views(inp@).to_multiset()) =~= orig.to_multiset());
            assert forall|z: ProjectStatusView| #[trigger] ties(orig, z) == ties(w, z) + ties(views(inp@), z) by {
                lemma_ties_insert(out0, k as int, x@, z);
                assert(in0 =~= seq![x@] + views(inp@));
                lemma_ties_prepend(x@, views(inp@), z);
                assert(ties(orig, z) == ties(out0, z) + ties(in0, z));
                assert(ties(orig, z) =~= ties(w, z) + ties(views(inp@), z));
            }
            assert forall|i: int, j: int| 0 <= i < j < w.len() implies #[trigger] w[i].display_rank(
                #[trigger] w[j],
            ) <= 0 by {
                assert(forall|m: int| 0 <= m < out0_raw.len() ==> out0[m] == #[trigger] out0_raw[m]@);
                if j < k {
                    assert(w[i] == out0[i] && w[j] == out0[j]);
                } else if j == k {
                    assert(w[i] == out0[i]);
                    assert(x@.display_rank(out0_raw[i]@) >= 0);
                    law_display_order_total_preorder(x@, out0[i], x@);
                } else if i > k {
                    assert(w[i] == out0[i - 1] && w[j] == out0[j - 1]);
                } else if i == k {
                    assert(w[j] == out0[j - 1]);
                    if j - 1 > k {
                        assert(out0[k as int].display_rank(out0[j - 1]) <= 0);
                    }
                    law_display_order_total_preorder(x@, out0[k as int], out0[j - 1]);
                } else {
                    assert(w[i] == out0[i] && w[j] == out0[j - 1]);
                }
            }
        }
    }
    assert(views(inp@) =~= Seq::<ProjectStatusView>::empty());
    assert forall|x: ProjectStatusView| #[trigger] ties(views(out@), x) == ties(orig, x) by {
        reveal(Seq::filter);
        assert(ties(views(inp@), x) =~= Seq::<ProjectStatusView>::empty());
        assert(ties(orig, x) =~= ties(views(out@), x));
    }
    assert(views(out@).to_multiset() =~= orig.to_multiset());
    assert(views(out@).len() == views(out@).to_multiset().len());
    assert(orig.len() == orig.to_multiset().len());
    out
}

} // verus!

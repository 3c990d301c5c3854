//! The single place where GitHub's raw `(status, conclusion)` strings are
//! interpreted: they collapse into one exhaustive [`RunState`].

use vstd::prelude::*;
use crate::text::{chars_eq, chars_of, eq_ignore_ascii_case, lower_seq, lowered};

verus! {

/// Semantic state of a workflow run.
#[derive(Debug, Clone, Copy, PartialEq, Eq, Hash, Structural)]
pub enum RunState {
    /// Run failed (`conclusion == "failure"`).
    Failed,
    /// Run was cancelled by a user or the system.
    Cancelled,
    /// Run timed out.
    TimedOut,
    /// Run requires manual action.
    ActionRequired,
    /// Run is currently executing.
    InProgress,
    /// Run is queued / waiting / requested / pending.
    Queued,
    /// Run completed successfully.
    Success,
    /// Run was skipped.
    Skipped,
    /// Run was neutral.
    Neutral,
    /// State could not be mapped.
    Unknown,
}

/// The verdict of a completed run, from its lowercased conclusion.
pub open spec fn conclusion_state(c: Seq<char>) -> RunState {
    if c == "success"@ {
        RunState::Success
    } else if c == "failure"@ {
        RunState::Failed
    } else if c == "cancelled"@ || c == "canceled"@ {
        RunState::Cancelled
    } else if c == "timed_out"@ {
        RunState::TimedOut
    } else if c == "action_required"@ {
        RunState::ActionRequired
    } else if c == "skipped"@ {
        RunState::Skipped
    } else if c == "neutral"@ {
        RunState::Neutral
    } else if c == "startup_failure"@ {
        RunState::Failed
    } else if c == "stale"@ {
        RunState::Cancelled
    } else {
        RunState::Unknown
    }
}

/// The state of a run that has not completed, from its lowercased status.
pub open spec fn lifecycle_state(s: Seq<char>) -> RunState {
    if s == "in_progress"@ {
        RunState::InProgress
    } else if s == "queued"@ || s == "waiting"@ || s == "requested"@ || s == "pending"@ {
        RunState::Queued
    } else if s == "action_required"@ {
        RunState::ActionRequired
    } else {
        RunState::Unknown
    }
}

/// Meaning of GitHub's `(status, conclusion)` pair, compared ASCII
/// case-insensitively.
pub open spec fn api_state(status: Seq<char>, conclusion: Option<Seq<char>>) -> RunState {
    if lower_seq(status) == lower_seq("completed"@) {
        match conclusion {
            Some(c) => conclusion_state(lower_seq(c)),
            None => RunState::Unknown,
        }
    } else {
        lifecycle_state(lower_seq(status))
    }
}

impl RunState {
    pub open spec fn spec_is_active(self) -> bool {
        self is InProgress || self is Queued
    }

    pub open spec fn spec_is_failure(self) -> bool {
        self is Failed || self is TimedOut || self is Cancelled
    }

    pub open spec fn spec_severity(self) -> u8 {
        match self {
            RunState::Failed => 0,
            RunState::TimedOut => 1,
            RunState::ActionRequired => 2,
            RunState::Cancelled => 3,
            RunState::InProgress => 4,
            RunState::Queued => 5,
            RunState::Unknown => 6,
            RunState::Neutral => 7,
            RunState::Skipped => 8,
            RunState::Success => 9,
        }
    }

    pub open spec fn spec_label(self) -> Seq<char> {
        match self {
            RunState::Failed => "Failed"@,
            RunState::Cancelled => "Cancelled"@,
            RunState::TimedOut => "Timed out"@,
            RunState::ActionRequired => "Action required"@,
            RunState::InProgress => "In progress"@,
            RunState::Queued => "Queued"@,
            RunState::Success => "Success"@,
            RunState::Skipped => "Skipped"@,
            RunState::Neutral => "Neutral"@,
            RunState::Unknown => "Unknown"@,
        }
    }

    pub open spec fn spec_glyph(self) -> Seq<char> {
        match self {
            RunState::Failed | RunState::TimedOut => "✗"@,
            RunState::Cancelled => "⊘"@,
            RunState::ActionRequired => "!"@,
            RunState::InProgress => "●"@,
            RunState::Queued => "◷"@,
            RunState::Success => "✓"@,
            RunState::Skipped => "»"@,
            RunState::Neutral => "–"@,
            RunState::Unknown => "?"@,
        }
    }

    pub open spec fn spec_persist_key(self) -> Seq<char> {
        match self {
            RunState::Failed => "failed"@,
            RunState::Cancelled => "cancelled"@,
            RunState::TimedOut => "timed_out"@,
            RunState::ActionRequired => "action_required"@,
            RunState::InProgress => "in_progress"@,
            RunState::Queued => "queued"@,
            RunState::Success => "success"@,
            RunState::Skipped => "skipped"@,
            RunState::Neutral => "neutral"@,
            RunState::Unknown => "unknown"@,
        }
    }

    /// Derive the semantic state from GitHub's raw `status` and `conclusion`.
    pub fn from_api(status: &str, conclusion: Option<&str>) -> (r: RunState)
        ensures
            r == api_state(status@, match conclusion { Some(c) => Some(c@), None => None }),
    {
        if eq_ignore_ascii_case(status, "completed") {
            return match conclusion {
                Some(c) => {
                    let l = lowered(chars_of(c).as_slice());
                    Self::from_conclusion(l.as_slice())
                },
                None => RunState::Unknown,
            };
        }
        let l = lowered(chars_of(status).as_slice());
        Self::from_lifecycle(l.as_slice())
    }

    fn from_conclusion(c: &[char]) -> (r: RunState)
        ensures
            r == conclusion_state(c@),
    {
        if chars_eq(c, chars_of("success").as_slice()) {
            RunState::Success
        } else if chars_eq(c, chars_of("failure").as_slice()) {
            RunState::Failed
        } else if chars_eq(c, chars_of("cancelled").as_slice()) || chars_eq(
            c,
            chars_of("canceled").as_slice(),
        ) {
            RunState::Cancelled
        } else if chars_eq(c, chars_of("timed_out").as_slice()) {
            RunState::TimedOut
        } else if chars_eq(c, chars_of("action_required").as_slice()) {
            RunState::ActionRequired
        } else if chars_eq(c, chars_of("skipped").as_slice()) {
            RunState::Skipped
        } else if chars_eq(c, chars_of("neutral").as_slice()) {
            RunState::Neutral
        } else if chars_eq(c, chars_of("startup_failure").as_slice()) {
            RunState::Failed
        } else if chars_eq(c, chars_of("stale").as_slice()) {
            RunState::Cancelled
        } else {
            RunState::Unknown
        }
    }

    fn from_lifecycle(s: &[char]) -> (r: RunState)
        ensures
            r == lifecycle_state(s@),
    {
        if chars_eq(s, chars_of("in_progress").as_slice()) {
            RunState::InProgress
        } else if chars_eq(s, chars_of("queued").as_slice()) || chars_eq(
            s,
            chars_of("waiting").as_slice(),
        ) || chars_eq(s, chars_of("requested").as_slice()) || chars_eq(
            s,
            chars_of("pending").as_slice(),
        ) {
            RunState::Queued
        } else if chars_eq(s, chars_of("action_required").as_slice()) {
            RunState::ActionRequired
        } else {
            RunState::Unknown
        }
    }

    /// True while the run has not reached a terminal state.
    pub fn is_active(self) -> (r: bool)
        ensures
            r == self.spec_is_active(),
    {
        matches!(self, RunState::InProgress | RunState::Queued)
    }

    /// True for terminal failure-like states worth alerting on.
    pub fn is_failure(self) -> (r: bool)
        ensures
            r == self.spec_is_failure(),
    {
        matches!(self, RunState::Failed | RunState::TimedOut | RunState::Cancelled)
    }

    /// Severity rank (lower = more urgent).
    pub fn severity(self) -> (r: u8)
        ensures
            r == self.spec_severity(),
    {
        match self {
            RunState::Failed => 0,
            RunState::TimedOut => 1,
            RunState::ActionRequired => 2,
            RunState::Cancelled => 3,
            RunState::InProgress => 4,
            RunState::Queued => 5,
            RunState::Unknown => 6,
            RunState::Neutral => 7,
            RunState::Skipped => 8,
            RunState::Success => 9,
        }
    }

    /// Short human label.
    pub fn label(self) -> (r: &'static str)
        ensures
            r@ == self.spec_label(),
    {
        match self {
            RunState::Failed => "Failed",
            RunState::Cancelled => "Cancelled",
            RunState::TimedOut => "Timed out",
            RunState::ActionRequired => "Action required",
            RunState::InProgress => "In progress",
            RunState::Queued => "Queued",
            RunState::Success => "Success",
            RunState::Skipped => "Skipped",
            RunState::Neutral => "Neutral",
            RunState::Unknown => "Unknown",
        }
    }

    /// A presentation-agnostic glyph.
    pub fn glyph(self) -> (r: &'static str)
        ensures
            r@ == self.spec_glyph(),
    {
        match self {
            RunState::Failed | RunState::TimedOut => "✗",
            RunState::Cancelled => "⊘",
            RunState::ActionRequired => "!",
            RunState::InProgress => "●",
            RunState::Queued => "◷",
            RunState::Success => "✓",
            RunState::Skipped => "»",
            RunState::Neutral => "–",
            RunState::Unknown => "?",
        }
    }

    /// Stable key under which a state is stored in the run cache.
    pub fn persist_key(self) -> (r: &'static str)
        ensures
            r@ == self.spec_persist_key(),
    {
        match self {
            RunState::Failed => "failed",
            RunState::Cancelled => "cancelled",
            RunState::TimedOut => "timed_out",
            RunState::ActionRequired => "action_required",
            RunState::InProgress => "in_progress",
            RunState::Queued => "queued",
            RunState::Success => "success",
            RunState::Skipped => "skipped",
            RunState::Neutral => "neutral",
            RunState::Unknown => "unknown",
        }
    }

    /// Inverse of [`RunState::persist_key`]; `None` for any other text.
    pub fn from_persist_key(key: &str) -> (r: Option<RunState>)
        ensures
            r matches Some(s) ==> s.spec_persist_key() == key@,
            r is None ==> forall|s: RunState| s.spec_persist_key() != key@,
    {
        let k = chars_of(key);
        let all = [
            RunState::Failed,
            RunState::Cancelled,
            RunState::TimedOut,
            RunState::ActionRequired,
            RunState::InProgress,
            RunState::Queued,
            RunState::Success,
            RunState::Skipped,
            RunState::Neutral,
            RunState::Unknown,
        ];
        let mut i: usize = 0;
        while i < 10
            invariant
                k@ == key@,
                all@ == seq![
                    RunState::Failed,
                    RunState::Cancelled,
                    RunState::TimedOut,
                    RunState::ActionRequired,
                    RunState::InProgress,
                    RunState::Queued,
                    RunState::Success,
                    RunState::Skipped,
                    RunState::Neutral,
                    RunState::Unknown,
                ],
                forall|j: int| 0 <= j < i ==> all@[j].spec_persist_key() != key@,
            decreases 10 - i,
        {
            let s = all[i];
            if chars_eq(k.as_slice(), chars_of(s.persist_key()).as_slice()) {
                return Some(s);
            }
            i = i + 1;
        }
        assert forall|s: RunState| s.spec_persist_key() != key@ by {
            assert(all@.contains(s)) by {
                match s {
                    RunState::Failed => assert(all@[0] == s),
                    RunState::Cancelled => assert(all@[1] == s),
                    RunState::TimedOut => assert(all@[2] == s),
                    RunState::ActionRequired => assert(all@[3] == s),
                    RunState::InProgress => assert(all@[4] == s),
                    RunState::Queued => assert(all@[5] == s),
                    RunState::Success => assert(all@[6] == s),
                    RunState::Skipped => assert(all@[7] == s),
                    RunState::Neutral => assert(all@[8] == s),
                    RunState::Unknown => assert(all@[9] == s),
                }
            }
        }
        None
    }
}

/// ASCII lowercasing is idempotent.
pub proof fn lemma_lower_idempotent(s: Seq<char>)
    ensures
        lower_seq(lower_seq(s)) == lower_seq(s),
{
    assert(lower_seq(lower_seq(s)) =~= lower_seq(s));
}

/// Interpreting GitHub's raw strings ignores ASCII case: the state of a
/// `(status, conclusion)` pair is that of its lowercased pair.
pub proof fn law_from_api_ignores_ascii_case(status: Seq<char>, conclusion: Option<Seq<char>>)
    ensures
        api_state(status, conclusion) == api_state(
            lower_seq(status),
            match conclusion {
                Some(c) => Some(lower_seq(c)),
                None => None,
            },
        ),
{
    lemma_lower_idempotent(status);
    if let Some(c) = conclusion {
        lemma_lower_idempotent(c);
    }
}

/// A completed run takes its verdict from GitHub's documented conclusions,
/// compared ASCII case-insensitively: `success`; `failure` and
/// `startup_failure` fail; `cancelled`, `canceled` and `stale` are cancelled;
/// `timed_out`; `action_required`; `skipped`; `neutral`; anything else is
/// unknown. A completed run is never in progress or queued.
pub proof fn law_completed_run_verdicts(status: Seq<char>, c: Seq<char>)
    requires
        lower_seq(status) == "completed"@,
    ensures
        ({
            let l = lower_seq(c);
            let v = api_state(status, Some(c));
            &&& (v is Success <==> l == "success"@)
            &&& (v is Failed <==> (l == "failure"@ || l == "startup_failure"@))
            &&& (v is Cancelled <==> (l == "cancelled"@ || l == "canceled"@ || l == "stale"@))
            &&& (v is TimedOut <==> l == "timed_out"@)
            &&& (v is ActionRequired <==> l == "action_required"@)
            &&& (v is Skipped <==> l == "skipped"@)
            &&& (v is Neutral <==> l == "neutral"@)
            &&& !(v is InProgress) && !(v is Queued)
            &&& (v is Unknown <==> !(l == "success"@ || l == "failure"@ || l == "startup_failure"@
                || l == "cancelled"@ || l == "canceled"@ || l == "stale"@ || l == "timed_out"@
                || l == "action_required"@ || l == "skipped"@ || l == "neutral"@))
        }),
{
    reveal_strlit("completed");
    reveal_strlit("success");
    reveal_strlit("failure");
    reveal_strlit("startup_failure");
    reveal_strlit("cancelled");
    reveal_strlit("canceled");
    reveal_strlit("stale");
    reveal_strlit("timed_out");
    reveal_strlit("action_required");
    reveal_strlit("skipped");
    reveal_strlit("neutral");
    lemma_lower_idempotent(status);
    assert(lower_seq("completed"@) =~= "completed"@);
    let l = lower_seq(c);
    if l == "success"@ {
        assert(l.len() == 7 && l[0] == 's' && l[1] == 'u');
    } else if l == "failure"@ {
        assert(l.len() == 7 && l[0] == 'f' && l[1] == 'a');
    } else if l == "startup_failure"@ {
        assert(l.len() == 15 && l[0] == 's' && l[1] == 't');
    } else if l == "cancelled"@ {
        assert(l.len() == 9 && l[0] == 'c' && l[1] == 'a');
    } else if l == "canceled"@ {
        assert(l.len() == 8 && l[0] == 'c' && l[1] == 'a');
    } else if l == "stale"@ {
        assert(l.len() == 5 && l[0] == 's' && l[1] == 't');
    } else if l == "timed_out"@ {
        assert(l.len() == 9 && l[0] == 't' && l[1] == 'i');
    } else if l == "action_required"@ {
        assert(l.len() == 15 && l[0] == 'a' && l[1] == 'c');
    } else if l == "skipped"@ {
        assert(l.len() == 7 && l[0] == 's' && l[1] == 'k');
    } else if l == "neutral"@ {
        assert(l.len() == 7 && l[0] == 'n' && l[1] == 'e');
    }
}

/// A failing state is terminal: no failure is still running or queued.
pub proof fn law_failure_is_terminal(s: RunState)
    ensures
        s.spec_is_failure() ==> !s.spec_is_active(),
{
}

/// Severity ranks every state differently, with a hard failure most urgent
/// and success least.
pub proof fn law_severity_ranks_states(a: RunState, b: RunState)
    ensures
        a != b ==> a.spec_severity() != b.spec_severity(),
        RunState::Failed.spec_severity() <= a.spec_severity() <= RunState::Success.spec_severity(),
{
}

/// The cache key of a state identifies it: distinct states have distinct
/// keys, so reading a stored key back yields the state that was stored.
pub proof fn law_persist_key_roundtrip(a: RunState, b: RunState)
    ensures
        a.spec_persist_key() == b.spec_persist_key() ==> a == b,
{
    reveal_strlit("failed");
    reveal_strlit("cancelled");
    reveal_strlit("timed_out");
    reveal_strlit("action_required");
    reveal_strlit("in_progress");
    reveal_strlit("queued");
    reveal_strlit("success");
    reveal_strlit("skipped");
    reveal_strlit("neutral");
    reveal_strlit("unknown");
    if a.spec_persist_key() == b.spec_persist_key() && a != b {
        let ka = a.spec_persist_key();
        let kb = b.spec_persist_key();
        assert(ka.len() == kb.len());
        assert(ka[0] == kb[0]);
        assert(ka[1] == kb[1]);
        assert(ka[2] == kb[2]);
    }
}

} // verus!

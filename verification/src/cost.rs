//! Counters of what a session has spent so far, and the pressure signals
//! derived from them.

use crate::clock::{now, seconds_between, whole_seconds_between, Timestamp};
use crate::text::{decimal, to_decimal};
use vstd::prelude::*;
use vstd::string::*;

verus! {

/// The persisted counters of a session.
#[derive(Clone, Copy, Debug)]
pub struct CostTracker {
    pub iterations: u64,
    pub llm_tokens: u64,
    pub failures: u64,
    pub start_time: Timestamp,
    pub last_updated: Timestamp,
}

/// The counters of a session that starts at instant `at`: nothing spent yet.
pub open spec fn fresh_tracker(at: Timestamp) -> CostTracker {
    CostTracker { iterations: 0, llm_tokens: 0, failures: 0, start_time: at, last_updated: at }
}

impl CostTracker {
    /// The counters of a session that starts at instant `at`.
    pub fn starting_at(at: Timestamp) -> (t: Self)
        ensures
            t == fresh_tracker(at),
    {
        CostTracker { iterations: 0, llm_tokens: 0, failures: 0, start_time: at, last_updated: at }
    }
}

impl Default for CostTracker {
    /// The counters of a session that starts now.
    fn default() -> (t: Self)
        ensures
            t == fresh_tracker(t.start_time),
    {
        CostTracker::starting_at(now())
    }
}

/// Whether more than three in ten iterations have failed. Never so before
/// the first iteration.
pub open spec fn escalates(iterations: nat, failures: nat) -> bool {
    iterations > 0 && 10 * failures > 3 * iterations
}

/// Whether the session runs long and fails more than half the time.
pub open spec fn thrashes(iterations: nat, failures: nat) -> bool {
    iterations > 50 && failures > iterations / 2
}

/// The summary of the counters that is put before an agent, with the
/// runtime given as text.
pub open spec fn cost_context(t: CostTracker, runtime_hours: Seq<char>) -> Seq<char> {
    "Current cost state:\n- Iterations: "@ + decimal(t.iterations as nat)
        + "\n- LLM tokens used: "@ + decimal(t.llm_tokens as nat) + "\n- Failures: "@ + decimal(
        t.failures as nat,
    ) + "\n- Runtime: "@ + runtime_hours + " hours\n\nIteration is expensive. Fix holistically."@
}

/// Mathematical model of a [`CostPressure`].
pub struct CostView {
    pub state_dir: Seq<char>,
    pub tracker: CostTracker,
}

impl CostView {
    /// The counters after one more iteration, noted at instant `at`.
    pub open spec fn with_iteration(self, at: Timestamp) -> CostView
        recommends
            self.tracker.iterations < u64::MAX,
    {
        CostView {
            state_dir: self.state_dir,
            tracker: CostTracker {
                iterations: (self.tracker.iterations + 1) as u64,
                last_updated: at,
                ..self.tracker
            },
        }
    }

    /// The counters after `tokens` more tokens, noted at instant `at`.
    pub open spec fn with_tokens(self, tokens: u64, at: Timestamp) -> CostView
        recommends
            self.tracker.llm_tokens + tokens <= u64::MAX,
    {
        CostView {
            state_dir: self.state_dir,
            tracker: CostTracker {
                llm_tokens: (self.tracker.llm_tokens + tokens) as u64,
                last_updated: at,
                ..self.tracker
            },
        }
    }

    /// The counters after one more failure, noted at instant `at`.
    pub open spec fn with_failure(self, at: Timestamp) -> CostView
        recommends
            self.tracker.failures < u64::MAX,
    {
        CostView {
            state_dir: self.state_dir,
            tracker: CostTracker {
                failures: (self.tracker.failures + 1) as u64,
                last_updated: at,
                ..self.tracker
            },
        }
    }
}

/// Owns the counters of one state directory.
pub struct CostPressure {
    state_dir: String,
    tracker: CostTracker,
}

impl View for CostPressure {
    type V = CostView;

    closed spec fn view(&self) -> CostView {
        CostView { state_dir: self.state_dir@, tracker: self.tracker }
    }
}

impl CostPressure {
    /// Fresh counters for a session that starts at instant `at`.
    pub fn new_at(state_dir: String, at: Timestamp) -> (c: Self)
        ensures
            c@ == (CostView { state_dir: state_dir@, tracker: fresh_tracker(at) }),
    {
        Self { state_dir, tracker: CostTracker::starting_at(at) }
    }

    /// Fresh counters for a session that starts now.
    pub fn new(state_dir: String) -> (c: Self)
        ensures
            c@ == (CostView {
                state_dir: state_dir@,
                tracker: fresh_tracker(c@.tracker.start_time),
            }),
    {
        Self::new_at(state_dir, now())
    }

    /// Counters made of the document found in storage; where it is missing,
    /// fresh counters for a session that starts now.
    pub fn from_document(state_dir: String, tracker: Option<CostTracker>) -> (c: Self)
        ensures
            c@.state_dir == state_dir@,
            c@.tracker == match tracker {
                Some(t) => t,
                None => fresh_tracker(c@.tracker.start_time),
            },
    {
        match tracker {
            Some(tracker) => Self { state_dir, tracker },
            None => Self::new(state_dir),
        }
    }

    /// The directory that the counters belong to.
    pub fn state_dir(&self) -> (d: &String)
        ensures
            d@ == self@.state_dir,
    {
        &self.state_dir
    }

    /// Counts one more iteration, noted at instant `at`.
    pub fn increment_iteration_at(&mut self, at: Timestamp)
        requires
            old(self)@.tracker.iterations < u64::MAX,
        ensures
            final(self)@ == old(self)@.with_iteration(at),
    {
        self.tracker.iterations += 1;
        self.tracker.last_updated = at;
    }

    /// Counts one more iteration, noted now.
    pub fn increment_iteration(&mut self)
        requires
            old(self)@.tracker.iterations < u64::MAX,
        ensures
            final(self)@ == old(self)@.with_iteration(final(self)@.tracker.last_updated),
    {
        self.increment_iteration_at(now());
    }

    /// Counts `tokens` more tokens, noted at instant `at`.
    pub fn add_llm_tokens_at(&mut self, tokens: u64, at: Timestamp)
        requires
            old(self)@.tracker.llm_tokens + tokens <= u64::MAX,
        ensures
            final(self)@ == old(self)@.with_tokens(tokens, at),
    {
        self.tracker.llm_tokens += tokens;
        self.tracker.last_updated = at;
    }

    /// Counts `tokens` more tokens, noted now.
    pub fn add_llm_tokens(&mut self, tokens: u64)
        requires
            old(self)@.tracker.llm_tokens + tokens <= u64::MAX,
        ensures
            final(self)@ == old(self)@.with_tokens(tokens, final(self)@.tracker.last_updated),
    {
        self.add_llm_tokens_at(tokens, now());
    }

    /// Counts one more failure, noted at instant `at`.
    pub fn increment_failures_at(&mut self, at: Timestamp)
        requires
            old(self)@.tracker.failures < u64::MAX,
        ensures
            final(self)@ == old(self)@.with_failure(at),
    {
        self.tracker.failures += 1;
        self.tracker.last_updated = at;
    }

    /// Counts one more failure, noted now.
    pub fn increment_failures(&mut self)
        requires
            old(self)@.tracker.failures < u64::MAX,
        ensures
            final(self)@ == old(self)@.with_failure(final(self)@.tracker.last_updated),
    {
        self.increment_failures_at(now());
    }

    /// The whole seconds that the session has run at instant `at`; `None`
    /// where an instant is out of the calendar's range.
    pub fn runtime_seconds_at(&self, at: Timestamp) -> (r: Option<i64>)
        ensures
            r == whole_seconds_between(
                self@.tracker.start_time.secs,
                self@.tracker.start_time.nanos,
                at.secs,
                at.nanos,
            ),
    {
        seconds_between(self.tracker.start_time, at)
    }

    /// The whole seconds that the session has run by now: those up to
    /// some instant, the one at which the clock was read.
    pub fn runtime_seconds(&self) -> (r: Option<i64>)
        ensures
            exists|at: Timestamp|
                r == #[trigger] whole_seconds_between(
                    self@.tracker.start_time.secs,
                    self@.tracker.start_time.nanos,
                    at.secs,
                    at.nanos,
                ),
    {
        let at = now();
        self.runtime_seconds_at(at)
    }

    /// Renders the counters as context for an agent. `runtime_hours` is the
    /// time since the session started, already written out in hours.
    pub fn get_cost_context(&self, runtime_hours: &str) -> (s: String)
        ensures
            s@ == cost_context(self@.tracker, runtime_hours@),
    {
        let mut s = String::from_str("Current cost state:\n- Iterations: ");
        s.append(to_decimal(self.tracker.iterations as u128).as_str());
        s.append("\n- LLM tokens used: ");
        s.append(to_decimal(self.tracker.llm_tokens as u128).as_str());
        s.append("\n- Failures: ");
        s.append(to_decimal(self.tracker.failures as u128).as_str());
        s.append("\n- Runtime: ");
        s.append(runtime_hours);
        s.append(" hours\n\nIteration is expensive. Fix holistically.");
        s
    }

    /// Whether the failure rate calls for escalation.
    pub fn should_escalate(&self) -> (r: bool)
        ensures
            r == escalates(self@.tracker.iterations as nat, self@.tracker.failures as nat),
    {
        let failures: u128 = self.tracker.failures as u128;
        let iterations: u128 = self.tracker.iterations as u128;
        iterations > 0 && 10 * failures > 3 * iterations
    }

    /// Whether the session is thrashing.
    pub fn is_thrashing(&self) -> (r: bool)
        ensures
            r == thrashes(self@.tracker.iterations as nat, self@.tracker.failures as nat),
    {
        self.tracker.iterations > 50 && self.tracker.failures > self.tracker.iterations / 2
    }

    /// The counters, as they are to be stored.
    pub fn get_tracker(&self) -> (t: &CostTracker)
        ensures
            *t == self@.tracker,
    {
        &self.tracker
    }
}

/// Escalation is never called for before the first iteration.
pub proof fn lemma_no_escalation_before_first_iteration(failures: nat)
    ensures
        !escalates(0, failures),
{
}

/// Once iterations have run, escalation is called for exactly when the
/// failures are more than three tenths of them.
pub proof fn lemma_escalation_is_rate_above_three_tenths(iterations: nat, failures: nat)
    requires
        iterations > 0,
    ensures
        escalates(iterations, failures) <==> failures * 10 > iterations * 3,
{
}

/// A session of fifty iterations or fewer is not thrashing, however many of
/// them failed; a longer one is exactly when the failures exceed half the
/// iterations, rounded down.
pub proof fn lemma_thrashing_threshold(iterations: nat, failures: nat)
    ensures
        iterations <= 50 ==> !thrashes(iterations, failures),
        iterations > 50 ==> (thrashes(iterations, failures) <==> failures > iterations / 2),
        thrashes(51, 26),
        !thrashes(51, 25),
{
}

} // verus!

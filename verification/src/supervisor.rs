//! The tick state machine: what one step of the control loop decides, and
//! how a verdict is written back.

use crate::agents::{AgentResult, Verdict};
use crate::clock::{now, Timestamp};
use crate::cost::{fresh_tracker, CostPressure, CostView};
use crate::state::{
    all_completed, has_id, is_pending, lemma_first_with_id_exists, pending_of, StateError,
    StateManager, StateView, TaskStatus, TaskView,
};
use vstd::prelude::*;
use vstd::string::*;

verus! {

/// Where a session keeps its state and where its language model listens.
#[derive(Debug, Clone)]
pub struct SupervisorConfig {
    pub state_dir: String,
    pub lm_studio_url: String,
}

/// Mathematical model of a [`SupervisorConfig`].
pub struct ConfigView {
    pub state_dir: Seq<char>,
    pub lm_studio_url: Seq<char>,
}

impl View for SupervisorConfig {
    type V = ConfigView;

    open spec fn view(&self) -> ConfigView {
        ConfigView { state_dir: self.state_dir@, lm_studio_url: self.lm_studio_url@ }
    }
}

/// What the caller of a tick is to do next.
#[derive(Debug)]
pub enum TickAction {
    /// Every gate has passed: stop the loop.
    Exit,
    /// The task with this id is in progress: send an agent for it, then
    /// report the verdict.
    Dispatch(String),
    /// Nothing to work on: no intent is set, or nothing is pending though
    /// not everything is finished.
    Wait,
}

/// The exit code that tells the driver of the loop to stop.
pub const LOOP_EXIT_CODE: i32 = 42;

impl TickAction {
    /// The exit code of a process that ran this tick to its end: the stop
    /// signal where every gate has passed, zero otherwise.
    pub fn exit_code(&self) -> (code: i32)
        ensures
            code == (if self@ is Exit { 42i32 } else { 0i32 }),
    {
        match self {
            TickAction::Exit => LOOP_EXIT_CODE,
            _ => 0,
        }
    }
}

/// Mathematical model of a [`TickAction`].
pub enum ActionView {
    Exit,
    Dispatch(Seq<char>),
    Wait,
}

impl View for TickAction {
    type V = ActionView;

    open spec fn view(&self) -> ActionView {
        match *self {
            TickAction::Exit => ActionView::Exit,
            TickAction::Dispatch(id) => ActionView::Dispatch(id@),
            TickAction::Wait => ActionView::Wait,
        }
    }
}

/// The description of the task that a plan starts with.
pub open spec fn initial_task() -> Seq<char> {
    "Implement basic application structure"@
}

/// Whether the verification gates pass: every task is completed.
pub open spec fn gates_pass(s: StateView) -> bool {
    all_completed(s.tasks)
}

/// Whether the loop is to end: an intent is set, tasks exist, all of them
/// are completed and the gates pass.
pub open spec fn exit_due(s: StateView) -> bool {
    s.intent is Some && s.tasks.len() > 0 && all_completed(s.tasks) && gates_pass(s)
}

/// The state after planning at instant `at`: where nothing is pending and
/// an intent is set, the initial task is added.
pub open spec fn planned(s: StateView, at: Timestamp) -> StateView {
    if pending_of(s.tasks).len() == 0 && s.intent is Some {
        s.with_task(initial_task(), at)
    } else {
        s
    }
}

/// The id of the task to work on next: that of the first pending task.
pub open spec fn selected(s: StateView) -> Option<Seq<char>> {
    if pending_of(s.tasks).len() == 0 {
        None
    } else {
        Some(pending_of(s.tasks)[0].id)
    }
}

/// The status that a verdict gives a task: completed on success, pending
/// again on failure.
pub open spec fn status_after(v: Verdict) -> TaskStatus {
    match v {
        Verdict::Success => TaskStatus::Completed,
        Verdict::Failure(_) => TaskStatus::Pending,
    }
}

/// Mathematical model of a [`Supervisor`].
pub struct SupervisorView {
    pub config: ConfigView,
    pub state: StateView,
    pub cost: CostView,
}

impl SupervisorView {
    /// What a tick at instant `at` tells its caller to do.
    pub open spec fn action(self, at: Timestamp) -> ActionView {
        if exit_due(self.state) {
            ActionView::Exit
        } else if self.state.intent is None {
            ActionView::Wait
        } else {
            match selected(planned(self.state, at)) {
                Some(id) => ActionView::Dispatch(id),
                None => ActionView::Wait,
            }
        }
    }

    /// The supervisor after a tick at instant `at`: one more iteration is
    /// counted; unless the loop is to end or no intent is set, the plan is
    /// made and the selected task is in progress.
    pub open spec fn after_tick(self, at: Timestamp) -> SupervisorView {
        SupervisorView {
            config: self.config,
            cost: self.cost.with_iteration(at),
            state: if exit_due(self.state) || self.state.intent is None {
                self.state
            } else {
                let p = planned(self.state, at);
                match selected(p) {
                    Some(id) => p.with_status(id, TaskStatus::InProgress, at),
                    None => p,
                }
            },
        }
    }

    /// The supervisor after `verdict` on the task `id` is applied at `at`.
    pub open spec fn after_verdict(self, id: Seq<char>, verdict: Verdict, at: Timestamp) -> SupervisorView {
        SupervisorView {
            config: self.config,
            cost: self.cost,
            state: self.state.with_status(id, status_after(verdict), at),
        }
    }
}

/// Composes the state and the cost counters of one session.
pub struct Supervisor {
    config: SupervisorConfig,
    state: StateManager,
    cost_pressure: CostPressure,
}

impl View for Supervisor {
    type V = SupervisorView;

    closed spec fn view(&self) -> SupervisorView {
        SupervisorView { config: self.config@, state: self.state@, cost: self.cost_pressure@ }
    }
}

impl Supervisor {
    /// A supervisor over state and counters that were read back from
    /// storage.
    pub fn new(config: SupervisorConfig, state: StateManager, cost_pressure: CostPressure) -> (s: Self)
        ensures
            s@ == (SupervisorView { config: config@, state: state@, cost: cost_pressure@ }),
    {
        Self { config, state, cost_pressure }
    }

    /// The supervisor of a session that starts at instant `at` with
    /// `intent`: no tasks yet, nothing spent.
    pub fn initialize_at(intent: String, config: SupervisorConfig, at: Timestamp) -> (s: Self)
        ensures
            s@ == (SupervisorView {
                config: config@,
                state: StateView {
                    state_dir: config@.state_dir,
                    intent: None,
                    tasks: Seq::empty(),
                }.with_intent(intent@, at),
                cost: CostView { state_dir: config@.state_dir, tracker: fresh_tracker(at) },
            }),
    {
        let mut state = StateManager::new(config.state_dir.clone());
        let _ = state.set_intent_at(intent, at);
        let cost_pressure = CostPressure::new_at(config.state_dir.clone(), at);
        Self { config, state, cost_pressure }
    }

    /// The supervisor of a session that starts now with `intent`.
    pub fn initialize(intent: String, config: SupervisorConfig) -> (s: Self)
        ensures
            s@ == (SupervisorView {
                config: config@,
                state: StateView {
                    state_dir: config@.state_dir,
                    intent: None,
                    tasks: Seq::empty(),
                }.with_intent(intent@, s@.cost.tracker.start_time),
                cost: CostView {
                    state_dir: config@.state_dir,
                    tracker: fresh_tracker(s@.cost.tracker.start_time),
                },
            }),
    {
        Self::initialize_at(intent, config, now())
    }

    /// The configuration.
    pub fn config(&self) -> (c: &SupervisorConfig)
        ensures
            c@ == self@.config,
    {
        &self.config
    }

    /// The intent and the tasks.
    pub fn state(&self) -> (s: &StateManager)
        ensures
            s@ == self@.state,
    {
        &self.state
    }

    /// The cost counters.
    pub fn cost_pressure(&self) -> (c: &CostPressure)
        ensures
            c@ == self@.cost,
    {
        &self.cost_pressure
    }

    /// Whether the verification gates pass.
    pub fn run_verification_gates(&self) -> (r: bool)
        ensures
            r == gates_pass(self@.state),
    {
        match self.state.all_tasks_completed() {
            Ok(b) => b,
            Err(_) => false,
        }
    }

    /// Whether the loop is to end.
    pub fn should_exit(&self) -> (r: bool)
        ensures
            r == exit_due(self@.state),
    {
        if self.state.get_intent().is_none() {
            return false;
        }
        if !self.state.has_tasks() {
            return false;
        }
        let done = match self.state.all_tasks_completed() {
            Ok(b) => b,
            Err(_) => false,
        };
        if !done {
            return false;
        }
        self.run_verification_gates()
    }

    /// Adds the tasks that a plan starts with, created at instant `at`.
    pub fn create_initial_tasks_at(&mut self, at: Timestamp)
        ensures
            final(self)@ == (SupervisorView {
                state: old(self)@.state.with_task(initial_task(), at),
                ..old(self)@
            }),
    {
        let _ = self.state.add_task_at(String::from_str("Implement basic application structure"), at);
    }

    /// Plans at instant `at` where nothing is pending, and selects the
    /// first pending task.
    pub fn decide_next_task_at(&mut self, at: Timestamp) -> (r: Option<String>)
        ensures
            final(self)@ == (SupervisorView { state: planned(old(self)@.state, at), ..old(self)@ }),
            match r {
                Some(id) => selected(final(self)@.state) == Some(id@),
                None => selected(final(self)@.state) is None,
            },
    {
        let none_pending = match self.state.get_pending_tasks() {
            Ok(v) => {
                assert(Seq::new(v@.len(), |k: int| v@[k]@).len() == v@.len());
                v.len() == 0
            },
            Err(_) => true,
        };
        if none_pending && self.state.get_intent().is_some() {
            self.create_initial_tasks_at(at);
        }
        match self.state.get_pending_tasks() {
            Ok(tasks) => {
                let ghost views = Seq::new(tasks@.len(), |k: int| tasks@[k]@);
                assert(views.len() == tasks@.len());
                if tasks.len() == 0 {
                    None
                } else {
                    assert(views[0] == tasks@[0]@);
                    Some(tasks[0].id.clone())
                }
            },
            Err(_) => None,
        }
    }

    /// One step of the control loop at instant `at`, up to the point where
    /// an agent is needed.
    pub fn tick_at(&mut self, at: Timestamp) -> (r: TickAction)
        requires
            old(self)@.cost.tracker.iterations < u64::MAX,
        ensures
            final(self)@ == old(self)@.after_tick(at),
            r@ == old(self)@.action(at),
    {
        self.cost_pressure.increment_iteration_at(at);
        if self.should_exit() {
            return TickAction::Exit;
        }
        if self.state.get_intent().is_none() {
            return TickAction::Wait;
        }
        match self.decide_next_task_at(at) {
            Some(task_id) => {
                proof {
                    lemma_selected_is_listed(self@.state);
                }
                let _ = self.state.update_task_status_at(task_id.as_str(), TaskStatus::InProgress, at);
                TickAction::Dispatch(task_id)
            },
            None => TickAction::Wait,
        }
    }

    /// One step of the control loop, up to the point where an agent is
    /// needed; every change of the step is stamped with the time of the
    /// call.
    pub fn tick(&mut self) -> (r: TickAction)
        requires
            old(self)@.cost.tracker.iterations < u64::MAX,
        ensures
            final(self)@ == old(self)@.after_tick(final(self)@.cost.tracker.last_updated),
            r@ == old(self)@.action(final(self)@.cost.tracker.last_updated),
    {
        self.tick_at(now())
    }

    /// Writes the verdict of an agent on `task_id` back at instant `at`:
    /// completed on success, pending again on failure. Fails, and changes
    /// nothing, where no task carries that id.
    pub fn apply_verdict_at(&mut self, task_id: &str, result: &AgentResult, at: Timestamp) -> (r: Result<
        (),
        StateError,
    >)
        ensures
            has_id(old(self)@.state.tasks, task_id@) ==> r is Ok,
            !has_id(old(self)@.state.tasks, task_id@) ==> (r matches Err(StateError::NotFound(id))
                && id@ == task_id@),
            final(self)@ == old(self)@.after_verdict(task_id@, result@, at),
    {
        let status = match result {
            AgentResult::Success => TaskStatus::Completed,
            AgentResult::Failure(_) => TaskStatus::Pending,
        };
        self.state.update_task_status_at(task_id, status, at)
    }

    /// Writes the verdict of an agent on `task_id` back, stamped with the
    /// current time. Fails, and changes nothing, where no task carries
    /// that id.
    pub fn apply_verdict(&mut self, task_id: &str, result: &AgentResult) -> (r: Result<(), StateError>)
        ensures
            has_id(old(self)@.state.tasks, task_id@) ==> r is Ok,
            !has_id(old(self)@.state.tasks, task_id@) ==> (r matches Err(StateError::NotFound(id))
                && id@ == task_id@) && final(self)@ == old(self)@,
            final(self)@.config == old(self)@.config,
            final(self)@.cost == old(self)@.cost,
            has_id(old(self)@.state.tasks, task_id@) ==> final(self)@ == old(self)@.after_verdict(
                task_id@,
                result@,
                final(self)@.state.tasks[crate::state::first_with_id(
                    old(self)@.state.tasks,
                    task_id@,
                )].updated_at,
            ),
    {
        let status = match result {
            AgentResult::Success => TaskStatus::Completed,
            AgentResult::Failure(_) => TaskStatus::Pending,
        };
        self.state.update_task_status(task_id, status)
    }
}

/// The task that is selected is one of the list.
pub proof fn lemma_selected_is_listed(s: StateView)
    requires
        selected(s) is Some,
    ensures
        has_id(s.tasks, selected(s)->Some_0),
{
    let pred = |t: TaskView| is_pending(t);
    let p = pending_of(s.tasks);
    assert(p.contains(p[0]));
    s.tasks.lemma_filter_contains_rev(pred, p[0]);
    let k = choose|k: int| 0 <= k < s.tasks.len() && s.tasks[k] == p[0];
    lemma_first_with_id_exists(s.tasks, p[0].id, k);
}

/// Where the loop is to end, a tick tells the caller to stop and leaves
/// every task as it was.
pub proof fn lemma_exit_leaves_tasks(v: SupervisorView, at: Timestamp)
    requires
        exit_due(v.state),
    ensures
        v.action(at) == ActionView::Exit,
        v.after_tick(at).state == v.state,
{
}

/// Without an intent a tick neither ends the loop nor touches the tasks.
pub proof fn lemma_idle_without_intent(v: SupervisorView, at: Timestamp)
    requires
        v.state.intent is None,
    ensures
        v.action(at) == ActionView::Wait,
        v.after_tick(at).state == v.state,
{
}

/// With an intent set, a tick ends the loop or finds a task to send an
/// agent for.
pub proof fn lemma_tick_with_intent_makes_progress(v: SupervisorView, at: Timestamp)
    requires
        v.state.intent is Some,
    ensures
        v.action(at) is Exit || v.action(at) is Dispatch,
{
    if pending_of(v.state.tasks).len() == 0 {
        let after = v.state.with_task(initial_task(), at).tasks;
        let pred = |t: TaskView| is_pending(t);
        assert(pred(after[after.len() - 1]));
        after.lemma_filter_contains(pred, after.len() - 1);
    }
}

/// A task that an agent failed is pending again, whatever the reason, and
/// the next selection finds a task to work on.
pub proof fn lemma_failed_task_is_pending_again(
    v: SupervisorView,
    id: Seq<char>,
    reason: Seq<char>,
    at: Timestamp,
)
    requires
        has_id(v.state.tasks, id),
    ensures
        v.after_verdict(id, Verdict::Failure(reason), at).state.tasks[crate::state::first_with_id(
            v.state.tasks,
            id,
        )].status == TaskStatus::Pending,
        selected(v.after_verdict(id, Verdict::Failure(reason), at).state) is Some,
{
    let k = choose|k: int| 0 <= k < v.state.tasks.len() && (#[trigger] v.state.tasks[k]).id == id;
    lemma_first_with_id_exists(v.state.tasks, id, k);
    let i = crate::state::first_with_id(v.state.tasks, id);
    let after = v.after_verdict(id, Verdict::Failure(reason), at).state.tasks;
    let pred = |t: TaskView| is_pending(t);
    assert(pred(after[i]));
    after.lemma_filter_contains(pred, i);
}

/// The first plan of a session holds exactly one task: pending, and
/// described as the initial task.
pub proof fn lemma_first_plan(s: StateView, at: Timestamp)
    requires
        s.intent is Some,
        s.tasks.len() == 0,
    ensures
        planned(s, at).tasks.len() == 1,
        planned(s, at).tasks[0].status == TaskStatus::Pending,
        planned(s, at).tasks[0].description == initial_task(),
        planned(s, at).tasks[0].id == crate::state::task_id(0),
{
    s.tasks.lemma_filter_len(|t: TaskView| is_pending(t));
}

} // verus!

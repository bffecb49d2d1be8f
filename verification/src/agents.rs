//! The verification agents: each turns what was observed of the workspace
//! into a verdict on a task.

use crate::cost::CostPressure;
use crate::state::{has_id, StateManager, StateView};
use vstd::prelude::*;
use vstd::string::*;

verus! {

/// The kinds of agent that can be dispatched.
#[derive(Clone, Copy, Debug, PartialEq, Eq, Structural)]
pub enum AgentType {
    ExecutionVerification,
    CodeSlop,
    Architecture,
    UiSnob,
}

/// The verdict of an agent on a task.
#[derive(Debug)]
pub enum AgentResult {
    Success,
    Failure(String),
}

/// Mathematical model of an [`AgentResult`].
pub enum Verdict {
    Success,
    Failure(Seq<char>),
}

impl View for AgentResult {
    type V = Verdict;

    open spec fn view(&self) -> Verdict {
        match *self {
            AgentResult::Success => Verdict::Success,
            AgentResult::Failure(reason) => Verdict::Failure(reason@),
        }
    }
}

/// Why an agent could not reach a verdict at all.
#[derive(Debug)]
pub enum AgentError {
    /// No task carries the id that the agent was sent for.
    TaskNotFound(String),
    /// The session has no intent to verify against.
    NoIntent,
}

/// Mathematical model of an [`AgentError`].
pub enum AgentErrorView {
    TaskNotFound(Seq<char>),
    NoIntent,
}

impl View for AgentError {
    type V = AgentErrorView;

    open spec fn view(&self) -> AgentErrorView {
        match *self {
            AgentError::TaskNotFound(id) => AgentErrorView::TaskNotFound(id@),
            AgentError::NoIntent => AgentErrorView::NoIntent,
        }
    }
}

impl AgentError {
    /// The message a user is shown for this error.
    pub fn message(&self) -> (s: String)
        ensures
            s@ == match self@ {
                AgentErrorView::TaskNotFound(id) => "Task "@ + id + " not found"@,
                AgentErrorView::NoIntent => "No user intent found"@,
            },
    {
        match self {
            AgentError::TaskNotFound(id) => {
                let mut s = String::from_str("Task ");
                s.append(id.as_str());
                s.append(" not found");
                s
            },
            AgentError::NoIntent => String::from_str("No user intent found"),
        }
    }
}

/// What was observed of the workspace directory before an agent is asked.
#[derive(Clone, Copy, Debug)]
pub struct WorkspaceProbe {
    /// The workspace directory exists.
    pub exists: bool,
    /// The workspace holds a project manifest.
    pub has_manifest: bool,
    /// The workspace holds a version-control marker.
    pub has_repository: bool,
    /// The workspace directory could be entered.
    pub reachable: bool,
}

/// The verdict of the execution check: a workspace without a manifest is
/// too young to fail; one with a manifest must be reachable.
pub open spec fn execution_verdict(probe: WorkspaceProbe) -> Verdict {
    if !probe.has_manifest || probe.reachable {
        Verdict::Success
    } else {
        Verdict::Failure("Application cannot start or workspace is inaccessible"@)
    }
}

/// The verdict of the structure check: no workspace means nothing to
/// object to; a workspace must hold a manifest and a version-control marker.
pub open spec fn code_slop_verdict(probe: WorkspaceProbe) -> Verdict {
    if !probe.exists || (probe.has_manifest && probe.has_repository) {
        Verdict::Success
    } else {
        Verdict::Failure("Codebase structure incomplete"@)
    }
}

/// What an agent of kind `kind` answers when sent for `task_id`. Only the
/// execution check looks the task and the intent up, and fails hard where
/// one is missing.
pub open spec fn agent_outcome(
    kind: AgentType,
    state: StateView,
    task_id: Seq<char>,
    probe: WorkspaceProbe,
) -> Result<Verdict, AgentErrorView> {
    match kind {
        AgentType::ExecutionVerification => {
            if !has_id(state.tasks, task_id) {
                Err(AgentErrorView::TaskNotFound(task_id))
            } else if state.intent is None {
                Err(AgentErrorView::NoIntent)
            } else {
                Ok(execution_verdict(probe))
            }
        },
        AgentType::CodeSlop => Ok(code_slop_verdict(probe)),
        AgentType::Architecture => Ok(Verdict::Success),
        AgentType::UiSnob => Ok(Verdict::Success),
    }
}

/// The views of an exec outcome, variant by variant.
pub open spec fn outcome_view(r: Result<AgentResult, AgentError>) -> Result<Verdict, AgentErrorView> {
    match r {
        Ok(v) => Ok(v@),
        Err(e) => Err(e@),
    }
}

/// The prompt that asks whether a requirement is implemented, given the
/// cost context and the task's description.
pub open spec fn verification_prompt(cost_context: Seq<char>, task: Seq<char>) -> Seq<char> {
    "You are the Execution Verification Agent - the truth anchor of the Ralph Wiggum system.\n\n"@
        + cost_context
        + "\n\nYour task is to verify that the following requirement is actually implemented and working:\n\""@
        + task
        + "\"\n\nCheck if:\n1. The application can start successfully\n2. The core functionality described works as intended\n3. No critical errors occur\n4. The implementation matches the user's intent\n\nRespond with either:\n- SUCCESS: [brief explanation]\n- FAILURE: [detailed explanation of what's wrong]\n\nBe ruthlessly honest. If something doesn't work, say so clearly."@
}

/// What every agent offers: a verdict on one task, given read access to the
/// state, the cost counters and what was observed of the workspace.
pub trait AgentBehavior {
    fn execute(
        &self,
        task_id: &str,
        state: &StateManager,
        cost_pressure: &CostPressure,
        probe: &WorkspaceProbe,
    ) -> Result<AgentResult, AgentError>;
}

/// Checks that what a task asked for can run.
pub struct ExecutionVerificationAgent;

impl ExecutionVerificationAgent {
    /// The prompt that puts the task before a language model.
    pub fn prompt(&self, cost_context: &str, task_description: &str) -> (s: String)
        ensures
            s@ == verification_prompt(cost_context@, task_description@),
    {
        let mut s = String::from_str(
            "You are the Execution Verification Agent - the truth anchor of the Ralph Wiggum system.\n\n",
        );
        s.append(cost_context);
        s.append(
            "\n\nYour task is to verify that the following requirement is actually implemented and working:\n\"",
        );
        s.append(task_description);
        s.append(
            "\"\n\nCheck if:\n1. The application can start successfully\n2. The core functionality described works as intended\n3. No critical errors occur\n4. The implementation matches the user's intent\n\nRespond with either:\n- SUCCESS: [brief explanation]\n- FAILURE: [detailed explanation of what's wrong]\n\nBe ruthlessly honest. If something doesn't work, say so clearly.",
        );
        s
    }
}

impl AgentBehavior for ExecutionVerificationAgent {
    fn execute(
        &self,
        task_id: &str,
        state: &StateManager,
        cost_pressure: &CostPressure,
        probe: &WorkspaceProbe,
    ) -> (r: Result<AgentResult, AgentError>)
        ensures
            outcome_view(r) == agent_outcome(AgentType::ExecutionVerification, state@, task_id@, *probe),
    {
        if state.get_task(task_id).is_none() {
            return Err(AgentError::TaskNotFound(String::from_str(task_id)));
        }
        if state.get_intent().is_none() {
            return Err(AgentError::NoIntent);
        }
        if !probe.has_manifest || probe.reachable {
            Ok(AgentResult::Success)
        } else {
            Ok(
                AgentResult::Failure(
                    String::from_str("Application cannot start or workspace is inaccessible"),
                ),
            )
        }
    }
}

/// Watches the structure of the codebase.
pub struct CodeSlopAgent;

impl AgentBehavior for CodeSlopAgent {
    fn execute(
        &self,
        task_id: &str,
        state: &StateManager,
        cost_pressure: &CostPressure,
        probe: &WorkspaceProbe,
    ) -> (r: Result<AgentResult, AgentError>)
        ensures
            outcome_view(r) == agent_outcome(AgentType::CodeSlop, state@, task_id@, *probe),
    {
        if !probe.exists {
            return Ok(AgentResult::Success);
        }
        if probe.has_manifest && probe.has_repository {
            Ok(AgentResult::Success)
        } else {
            Ok(AgentResult::Failure(String::from_str("Codebase structure incomplete")))
        }
    }
}

/// Watches the overall shape of the system.
pub struct ArchitectureAgent;

impl AgentBehavior for ArchitectureAgent {
    fn execute(
        &self,
        task_id: &str,
        state: &StateManager,
        cost_pressure: &CostPressure,
        probe: &WorkspaceProbe,
    ) -> (r: Result<AgentResult, AgentError>)
        ensures
            outcome_view(r) == agent_outcome(AgentType::Architecture, state@, task_id@, *probe),
    {
        Ok(AgentResult::Success)
    }
}

/// Watches the look of the user interface.
pub struct UiSnobAgent;

impl AgentBehavior for UiSnobAgent {
    fn execute(
        &self,
        task_id: &str,
        state: &StateManager,
        cost_pressure: &CostPressure,
        probe: &WorkspaceProbe,
    ) -> (r: Result<AgentResult, AgentError>)
        ensures
            outcome_view(r) == agent_outcome(AgentType::UiSnob, state@, task_id@, *probe),
    {
        Ok(AgentResult::Success)
    }
}

/// An agent of one kind, ready to be sent for a task.
pub struct Agent {
    agent_type: AgentType,
}

impl Agent {
    /// An agent of kind `agent_type`.
    pub fn new(agent_type: AgentType) -> (a: Self)
        ensures
            a.kind() == agent_type,
    {
        Self { agent_type }
    }

    /// The kind of this agent.
    pub closed spec fn kind(&self) -> AgentType {
        self.agent_type
    }

    /// The kind of this agent.
    pub fn agent_type(&self) -> (k: AgentType)
        ensures
            k == self.kind(),
    {
        self.agent_type
    }

    /// Sends the agent for `task_id`: the answer is that of its kind, with
    /// cost counters that start afresh for the state's directory.
    pub fn execute(&self, task_id: &str, state: &StateManager, probe: &WorkspaceProbe) -> (r: Result<
        AgentResult,
        AgentError,
    >)
        ensures
            outcome_view(r) == agent_outcome(self.kind(), state@, task_id@, *probe),
    {
        let cost_pressure = CostPressure::new(state.state_dir().clone());
        match self.agent_type {
            AgentType::ExecutionVerification => ExecutionVerificationAgent.execute(
                task_id,
                state,
                &cost_pressure,
                probe,
            ),
            AgentType::CodeSlop => CodeSlopAgent.execute(task_id, state, &cost_pressure, probe),
            AgentType::Architecture => ArchitectureAgent.execute(task_id, state, &cost_pressure, probe),
            AgentType::UiSnob => UiSnobAgent.execute(task_id, state, &cost_pressure, probe),
        }
    }
}

} // verus!

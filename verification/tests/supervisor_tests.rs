use ralph_wiggum_supervisor::agents::AgentResult;
use ralph_wiggum_supervisor::clock::Timestamp;
use ralph_wiggum_supervisor::cost::{CostPressure, CostTracker};
use ralph_wiggum_supervisor::state::{Intent, StateError, StateManager, Task, TaskList, TaskStatus};
use ralph_wiggum_supervisor::supervisor::{Supervisor, SupervisorConfig, TickAction};

fn at(secs: i64) -> Timestamp {
    Timestamp { secs, nanos: 0 }
}

fn config() -> SupervisorConfig {
    SupervisorConfig {
        state_dir: "root/state".to_string(),
        lm_studio_url: "http://localhost:1234/v1/chat/completions".to_string(),
    }
}

fn task(id: &str, status: TaskStatus) -> Task {
    Task {
        id: id.to_string(),
        description: format!("work on {}", id),
        status,
        created_at: at(1),
        updated_at: at(1),
    }
}

fn supervisor(with_intent: bool, tasks: Vec<Task>) -> Supervisor {
    let intent = if with_intent {
        Some(Intent { description: "Build a todo app".to_string(), created_at: at(1) })
    } else {
        None
    };
    let state = StateManager::from_documents("root/state".to_string(), intent, Some(TaskList { tasks }));
    Supervisor::new(config(), state, CostPressure::new_at("root/state".to_string(), at(1)))
}

fn statuses(s: &Supervisor) -> Vec<TaskStatus> {
    s.state().task_list().tasks.iter().map(|t| t.status).collect()
}

#[test]
fn initialize_sets_intent_and_fresh_counters() {
    let s = Supervisor::initialize_at("Build a todo app".to_string(), config(), at(8));
    assert_eq!(s.config().state_dir, "root/state");
    assert_eq!(s.config().lm_studio_url, "http://localhost:1234/v1/chat/completions");
    assert_eq!(s.state().state_dir, "root/state");
    assert_eq!(s.state().get_intent().unwrap().description, "Build a todo app");
    assert_eq!(s.state().get_intent().unwrap().created_at, at(8));
    assert!(!s.state().has_tasks());
    assert_eq!(s.cost_pressure().get_tracker().iterations, 0);
    assert_eq!(s.cost_pressure().get_tracker().start_time, at(8));
    assert_eq!(s.cost_pressure().state_dir(), "root/state");
    let n = Supervisor::initialize("x".to_string(), config());
    assert_eq!(n.state().get_intent().unwrap().description, "x");
    assert!(n.cost_pressure().get_tracker().start_time.secs > 1_500_000_000);
}

#[test]
fn first_plan_is_one_pending_task() {
    let mut s = Supervisor::initialize_at("Build a todo app".to_string(), config(), at(8));
    assert!(!s.should_exit());
    let id = s.decide_next_task_at(at(9));
    assert_eq!(id.as_deref(), Some("task_1"));
    let l = &s.state().task_list().tasks;
    assert_eq!(l.len(), 1);
    assert_eq!(l[0].status, TaskStatus::Pending);
    assert_eq!(l[0].description, "Implement basic application structure");
    assert_eq!(l[0].id, "task_1");
    assert_eq!(l[0].created_at, at(9));
}

#[test]
fn first_tick_after_init() {
    let mut s = Supervisor::initialize("Build a todo app".to_string(), config());
    let action = s.tick();
    assert!(matches!(&action, TickAction::Dispatch(id) if id == "task_1"));
    assert_eq!(s.cost_pressure().get_tracker().iterations, 1);
    let l = &s.state().task_list().tasks;
    assert_eq!(l.len(), 1);
    assert_eq!(l[0].description, "Implement basic application structure");
    assert_eq!(l[0].status, TaskStatus::InProgress);
    s.apply_verdict("task_1", &AgentResult::Success).unwrap();
    assert_eq!(statuses(&s), vec![TaskStatus::Completed]);
}

#[test]
fn tick_without_intent_waits() {
    let mut s = supervisor(false, vec![]);
    assert!(!s.should_exit());
    assert!(matches!(s.tick_at(at(5)), TickAction::Wait));
    assert!(!s.state().has_tasks());
    assert_eq!(s.cost_pressure().get_tracker().iterations, 1);
    assert_eq!(s.cost_pressure().get_tracker().last_updated, at(5));
}

#[test]
fn tick_without_intent_does_not_exit_on_completed_tasks() {
    let mut s = supervisor(false, vec![task("task_1", TaskStatus::Completed)]);
    assert!(s.run_verification_gates());
    assert!(!s.should_exit());
    assert!(matches!(s.tick_at(at(5)), TickAction::Wait));
    assert_eq!(statuses(&s), vec![TaskStatus::Completed]);
}

#[test]
fn tick_on_completed_tasks_exits_and_changes_nothing() {
    let mut s = supervisor(true, vec![task("task_1", TaskStatus::Completed), task("task_2", TaskStatus::Completed)]);
    assert!(s.run_verification_gates());
    assert!(s.should_exit());
    assert!(matches!(s.tick_at(at(5)), TickAction::Exit));
    assert_eq!(statuses(&s), vec![TaskStatus::Completed, TaskStatus::Completed]);
    assert_eq!(s.state().task_list().tasks[0].updated_at, at(1));
    assert_eq!(s.state().task_list().tasks.len(), 2);
    assert_eq!(s.cost_pressure().get_tracker().iterations, 1);
}

#[test]
fn tick_selects_the_first_pending_task() {
    let mut s = supervisor(
        true,
        vec![
            task("task_1", TaskStatus::Completed),
            task("task_2", TaskStatus::Pending),
            task("task_3", TaskStatus::Pending),
        ],
    );
    assert!(!s.should_exit());
    assert!(!s.run_verification_gates());
    let action = s.tick_at(at(5));
    assert!(matches!(&action, TickAction::Dispatch(id) if id == "task_2"));
    assert_eq!(statuses(&s), vec![TaskStatus::Completed, TaskStatus::InProgress, TaskStatus::Pending]);
    assert_eq!(s.state().task_list().tasks[1].updated_at, at(5));
    assert_eq!(s.state().task_list().tasks[2].updated_at, at(1));
}

#[test]
fn failure_verdict_returns_the_task_to_pending() {
    let mut s = supervisor(true, vec![task("task_1", TaskStatus::Pending)]);
    assert!(matches!(s.tick_at(at(5)), TickAction::Dispatch(_)));
    assert_eq!(statuses(&s), vec![TaskStatus::InProgress]);
    s.apply_verdict_at("task_1", &AgentResult::Failure("workspace inaccessible".to_string()), at(6)).unwrap();
    assert_eq!(statuses(&s), vec![TaskStatus::Pending]);
    assert_eq!(s.state().task_list().tasks[0].updated_at, at(6));
    let again = s.tick_at(at(7));
    assert!(matches!(&again, TickAction::Dispatch(id) if id == "task_1"));
    assert_eq!(statuses(&s), vec![TaskStatus::InProgress]);
    assert_eq!(s.cost_pressure().get_tracker().iterations, 2);
    assert_eq!(s.state().task_list().tasks.len(), 1);
}

#[test]
fn success_verdict_completes_the_task() {
    let mut s = supervisor(true, vec![task("task_1", TaskStatus::InProgress), task("task_2", TaskStatus::Pending)]);
    s.apply_verdict_at("task_1", &AgentResult::Success, at(6)).unwrap();
    assert_eq!(statuses(&s), vec![TaskStatus::Completed, TaskStatus::Pending]);
}

#[test]
fn verdict_on_unknown_task_is_refused() {
    let mut s = supervisor(true, vec![task("task_1", TaskStatus::InProgress)]);
    let e = s.apply_verdict_at("task_5", &AgentResult::Success, at(6)).unwrap_err();
    assert!(matches!(&e, StateError::NotFound(id) if id == "task_5"));
    assert_eq!(statuses(&s), vec![TaskStatus::InProgress]);
    assert!(s.apply_verdict("task_5", &AgentResult::Failure("no".to_string())).is_err());
}

#[test]
fn task_left_in_progress_is_not_resumed() {
    let mut s = supervisor(true, vec![task("task_1", TaskStatus::InProgress)]);
    let action = s.tick_at(at(5));
    assert!(matches!(&action, TickAction::Dispatch(id) if id == "task_2"));
    assert_eq!(statuses(&s), vec![TaskStatus::InProgress, TaskStatus::InProgress]);
    assert_eq!(s.state().task_list().tasks[1].description, "Implement basic application structure");
}

#[test]
fn create_initial_tasks_adds_the_first_task() {
    let mut s = supervisor(true, vec![]);
    s.create_initial_tasks_at(at(3));
    let l = &s.state().task_list().tasks;
    assert_eq!(l.len(), 1);
    assert_eq!(l[0].id, "task_1");
    assert_eq!(l[0].description, "Implement basic application structure");
    assert_eq!(l[0].status, TaskStatus::Pending);
}

#[test]
fn counters_survive_ticks() {
    let tracker = CostTracker { iterations: 41, llm_tokens: 7, failures: 3, start_time: at(1), last_updated: at(2) };
    let state = StateManager::new("root/state".to_string());
    let mut s = Supervisor::new(config(), state, CostPressure::from_document("root/state".to_string(), Some(tracker)));
    let _ = s.tick_at(at(9));
    let t = s.cost_pressure().get_tracker();
    assert_eq!((t.iterations, t.llm_tokens, t.failures), (42, 7, 3));
    assert_eq!(t.start_time, at(1));
    assert_eq!(t.last_updated, at(9));
}

#[test]
fn exit_code_of_each_action() {
    assert_eq!(TickAction::Exit.exit_code(), 42);
    assert_eq!(TickAction::Wait.exit_code(), 0);
    assert_eq!(TickAction::Dispatch("task_1".to_string()).exit_code(), 0);
}

#[test]
fn tick_without_intent_leaves_pending_tasks_alone() {
    let mut s = supervisor(false, vec![task("task_1", TaskStatus::Pending)]);
    assert!(matches!(s.tick_at(at(5)), TickAction::Wait));
    assert_eq!(statuses(&s), vec![TaskStatus::Pending]);
    assert_eq!(s.state().task_list().tasks[0].updated_at, at(1));
    assert_eq!(s.cost_pressure().get_tracker().iterations, 1);
}

#[test]
fn stored_parts_give_the_same_session_back() {
    let mut s = supervisor(true, vec![task("task_1", TaskStatus::Completed), task("task_2", TaskStatus::Pending)]);
    let _ = s.tick_at(at(5));
    let state = StateManager::from_documents(
        s.state().state_dir().clone(),
        s.state().get_intent().cloned(),
        Some(s.state().task_list().clone()),
    );
    let cost = CostPressure::from_document(
        s.cost_pressure().state_dir().clone(),
        Some(*s.cost_pressure().get_tracker()),
    );
    let t = Supervisor::new(config(), state, cost);
    assert_eq!(t.state().state_dir, s.state().state_dir);
    assert_eq!(t.state().get_intent().unwrap().description, "Build a todo app");
    assert_eq!(t.state().get_intent().unwrap().created_at, at(1));
    assert_eq!(statuses(&t), statuses(&s));
    let (a, b) = (&t.state().task_list().tasks, &s.state().task_list().tasks);
    assert_eq!(a.len(), b.len());
    for k in 0..a.len() {
        assert_eq!(a[k].id, b[k].id);
        assert_eq!(a[k].description, b[k].description);
        assert_eq!(a[k].created_at, b[k].created_at);
        assert_eq!(a[k].updated_at, b[k].updated_at);
    }
    let (x, y) = (t.cost_pressure().get_tracker(), s.cost_pressure().get_tracker());
    assert_eq!((x.iterations, x.llm_tokens, x.failures), (y.iterations, y.llm_tokens, y.failures));
    assert_eq!((x.start_time, x.last_updated), (y.start_time, y.last_updated));
}

//! The persisted state of a session: the user's intent and the ordered task
//! list, with the operations that change them.

use crate::clock::{now, Timestamp};
use crate::text::{decimal, lemma_decimal_injective, to_decimal};
use vstd::prelude::*;
use vstd::string::*;

verus! {

/// Where a task stands in its lifecycle.
#[derive(Clone, Copy, Debug, PartialEq, Eq, Structural)]
pub enum TaskStatus {
    Pending,
    InProgress,
    Completed,
    Failed,
}

/// The goal that the user stated for the session.
#[derive(Clone, Debug)]
pub struct Intent {
    pub description: String,
    pub created_at: Timestamp,
}

/// Mathematical model of an [`Intent`].
pub struct IntentView {
    pub description: Seq<char>,
    pub created_at: Timestamp,
}

impl View for Intent {
    type V = IntentView;

    open spec fn view(&self) -> IntentView {
        IntentView { description: self.description@, created_at: self.created_at }
    }
}

/// One unit of work.
#[derive(Clone, Debug)]
pub struct Task {
    pub id: String,
    pub description: String,
    pub status: TaskStatus,
    pub created_at: Timestamp,
    pub updated_at: Timestamp,
}

/// Mathematical model of a [`Task`].
pub struct TaskView {
    pub id: Seq<char>,
    pub description: Seq<char>,
    pub status: TaskStatus,
    pub created_at: Timestamp,
    pub updated_at: Timestamp,
}

impl View for Task {
    type V = TaskView;

    open spec fn view(&self) -> TaskView {
        TaskView {
            id: self.id@,
            description: self.description@,
            status: self.status,
            created_at: self.created_at,
            updated_at: self.updated_at,
        }
    }
}

/// The tasks of a session in insertion order.
#[derive(Clone, Debug)]
pub struct TaskList {
    pub tasks: Vec<Task>,
}

impl View for TaskList {
    type V = Seq<TaskView>;

    open spec fn view(&self) -> Seq<TaskView> {
        Seq::new(self.tasks@.len(), |i: int| self.tasks@[i]@)
    }
}

/// Why an operation on the state was refused.
#[derive(Clone, Debug)]
pub enum StateError {
    /// No task carries the id that was asked for.
    NotFound(String),
}

impl StateError {
    /// The message a user is shown for this error.
    pub fn message(&self) -> (s: String)
        ensures
            match *self {
                StateError::NotFound(id) => s@ == "Task "@ + id@ + " not found"@,
            },
    {
        match self {
            StateError::NotFound(id) => {
                let mut s = String::from_str("Task ");
                s.append(id.as_str());
                s.append(" not found");
                s
            },
        }
    }
}

/// The id given to the task that is added to a list of `count` tasks.
pub open spec fn task_id(count: nat) -> Seq<char> {
    "task_"@ + decimal(count + 1)
}

/// Whether a task is waiting to be selected.
pub open spec fn is_pending(t: TaskView) -> bool {
    t.status == TaskStatus::Pending
}

/// The tasks of `tasks` that are pending, in list order.
pub open spec fn pending_of(tasks: Seq<TaskView>) -> Seq<TaskView> {
    tasks.filter(|t: TaskView| is_pending(t))
}

/// Whether every task of `tasks` is completed; true of the empty list.
pub open spec fn all_completed(tasks: Seq<TaskView>) -> bool {
    forall|i: int| 0 <= i < tasks.len() ==> (#[trigger] tasks[i]).status == TaskStatus::Completed
}

/// Whether some task of `tasks` carries `id`.
pub open spec fn has_id(tasks: Seq<TaskView>, id: Seq<char>) -> bool {
    exists|i: int| 0 <= i < tasks.len() && (#[trigger] tasks[i]).id == id
}

/// Whether `i` is the position of the first task of `tasks` that carries `id`.
pub open spec fn is_first_with_id(tasks: Seq<TaskView>, id: Seq<char>, i: int) -> bool {
    &&& 0 <= i < tasks.len()
    &&& tasks[i].id == id
    &&& forall|j: int| 0 <= j < i ==> (#[trigger] tasks[j]).id != id
}

/// The position of the first task of `tasks` that carries `id`, where one does.
pub open spec fn first_with_id(tasks: Seq<TaskView>, id: Seq<char>) -> int {
    choose|i: int| is_first_with_id(tasks, id, i)
}

/// Only one position is the first that carries a given id.
pub proof fn lemma_first_with_id_unique(tasks: Seq<TaskView>, id: Seq<char>, i: int)
    requires
        is_first_with_id(tasks, id, i),
    ensures
        first_with_id(tasks, id) == i,
        has_id(tasks, id),
{
    let k = first_with_id(tasks, id);
    assert(is_first_with_id(tasks, id, k));
    if k < i {
        assert(tasks[k].id != id);
    }
    if i < k {
        assert(tasks[i].id != id);
    }
}

/// Where some task carries an id, one of them comes first.
pub proof fn lemma_first_with_id_exists(tasks: Seq<TaskView>, id: Seq<char>, k: int)
    requires
        0 <= k < tasks.len(),
        tasks[k].id == id,
    ensures
        has_id(tasks, id),
        is_first_with_id(tasks, id, first_with_id(tasks, id)),
        first_with_id(tasks, id) <= k,
    decreases k,
{
    if forall|j: int| 0 <= j < k ==> (#[trigger] tasks[j]).id != id {
        assert(is_first_with_id(tasks, id, k));
        lemma_first_with_id_unique(tasks, id, k);
    } else {
        let j = choose|j: int| 0 <= j < k && (#[trigger] tasks[j]).id == id;
        lemma_first_with_id_exists(tasks, id, j);
    }
}

/// Mathematical model of a [`StateManager`].
pub struct StateView {
    pub state_dir: Seq<char>,
    pub intent: Option<IntentView>,
    pub tasks: Seq<TaskView>,
}

impl StateView {
    /// The state after the intent is set to `description` at instant `at`.
    pub open spec fn with_intent(self, description: Seq<char>, at: Timestamp) -> StateView {
        StateView {
            state_dir: self.state_dir,
            intent: Some(IntentView { description, created_at: at }),
            tasks: self.tasks,
        }
    }

    /// The state after a pending task with `description` is appended at
    /// instant `at`.
    pub open spec fn with_task(self, description: Seq<char>, at: Timestamp) -> StateView {
        StateView {
            state_dir: self.state_dir,
            intent: self.intent,
            tasks: self.tasks.push(
                TaskView {
                    id: task_id(self.tasks.len()),
                    description,
                    status: TaskStatus::Pending,
                    created_at: at,
                    updated_at: at,
                },
            ),
        }
    }

    /// The state after the first task that carries `id` is given `status` at
    /// instant `at`; the state itself where no task carries `id`.
    pub open spec fn with_status(self, id: Seq<char>, status: TaskStatus, at: Timestamp) -> StateView {
        if has_id(self.tasks, id) {
            let i = first_with_id(self.tasks, id);
            StateView {
                state_dir: self.state_dir,
                intent: self.intent,
                tasks: self.tasks.update(
                    i,
                    TaskView {
                        id: self.tasks[i].id,
                        description: self.tasks[i].description,
                        status,
                        created_at: self.tasks[i].created_at,
                        updated_at: at,
                    },
                ),
            }
        } else {
            self
        }
    }
}

/// Owns the intent and the task list of one state directory.
pub struct StateManager {
    pub state_dir: String,
    intent: Option<Intent>,
    tasks: TaskList,
}

impl View for StateManager {
    type V = StateView;

    closed spec fn view(&self) -> StateView {
        StateView {
            state_dir: self.state_dir@,
            intent: match self.intent {
                Some(i) => Some(i@),
                None => None,
            },
            tasks: self.tasks@,
        }
    }
}

impl StateManager {
    /// A state with no intent and no tasks.
    pub fn new(state_dir: String) -> (s: Self)
        ensures
            s@ == (StateView { state_dir: state_dir@, intent: None, tasks: Seq::empty() }),
    {
        let s = Self { state_dir, intent: None, tasks: TaskList { tasks: Vec::new() } };
        assert(s.tasks@ =~= Seq::empty());
        s
    }

    /// A state made of the documents found in storage: a missing intent
    /// document means that no intent is set, a missing task document an
    /// empty list.
    pub fn from_documents(state_dir: String, intent: Option<Intent>, tasks: Option<TaskList>) -> (s:
        Self)
        ensures
            s@ == (StateView {
                state_dir: state_dir@,
                intent: match intent {
                    Some(i) => Some(i@),
                    None => None,
                },
                tasks: match tasks {
                    Some(l) => l@,
                    None => Seq::empty(),
                },
            }),
    {
        match tasks {
            Some(tasks) => Self { state_dir, intent, tasks },
            None => {
                let s = Self { state_dir, intent, tasks: TaskList { tasks: Vec::new() } };
                assert(s.tasks@ =~= Seq::empty());
                s
            },
        }
    }

    /// The directory that the state belongs to.
    pub fn state_dir(&self) -> (d: &String)
        ensures
            d@ == self@.state_dir,
    {
        &self.state_dir
    }

    /// The task list, as it is to be stored.
    pub fn task_list(&self) -> (l: &TaskList)
        ensures
            l@ == self@.tasks,
    {
        &self.tasks
    }

    /// Overwrites the intent, stamped with the instant `at`.
    pub fn set_intent_at(&mut self, description: String, at: Timestamp) -> (r: Result<(), StateError>)
        ensures
            r is Ok,
            final(self)@ == old(self)@.with_intent(description@, at),
    {
        self.intent = Some(Intent { description, created_at: at });
        Ok(())
    }

    /// Overwrites the intent, stamped with the current time.
    pub fn set_intent(&mut self, description: String) -> (r: Result<(), StateError>)
        ensures
            r is Ok,
            final(self)@.intent is Some,
            final(self)@ == old(self)@.with_intent(
                description@,
                final(self)@.intent->Some_0.created_at,
            ),
    {
        let at = now();
        self.set_intent_at(description, at)
    }

    /// The intent, if one was set.
    pub fn get_intent(&self) -> (r: Option<&Intent>)
        ensures
            match r {
                Some(i) => self@.intent == Some(i@),
                None => self@.intent is None,
            },
    {
        self.intent.as_ref()
    }

    /// Appends a pending task created at instant `at` and returns its id,
    /// which is derived from the number of tasks before the call.
    pub fn add_task_at(&mut self, description: String, at: Timestamp) -> (r: Result<String, StateError>)
        ensures
            r matches Ok(id) && id@ == task_id(old(self)@.tasks.len()),
            final(self)@ == old(self)@.with_task(description@, at),
    {
        let count: u128 = self.tasks.tasks.len() as u128;
        let mut id = String::from_str("task_");
        let number = to_decimal(count + 1);
        id.append(number.as_str());
        let ghost d = description@;
        let task = Task {
            id: id.clone(),
            description,
            status: TaskStatus::Pending,
            created_at: at,
            updated_at: at,
        };
        self.tasks.tasks.push(task);
        assert(self@.tasks =~= old(self)@.with_task(d, at).tasks);
        Ok(id)
    }

    /// Appends a pending task stamped with the current time and returns its id.
    pub fn add_task(&mut self, description: String) -> (r: Result<String, StateError>)
        ensures
            r matches Ok(id) && id@ == task_id(old(self)@.tasks.len()),
            final(self)@.tasks.len() == old(self)@.tasks.len() + 1,
            final(self)@ == old(self)@.with_task(description@, final(self)@.tasks.last().created_at),
    {
        let at = now();
        self.add_task_at(description, at)
    }

    /// Gives `status` to the first task that carries `task_id`, at instant
    /// `at`. Fails, and changes nothing, where no task carries that id.
    pub fn update_task_status_at(&mut self, task_id: &str, status: TaskStatus, at: Timestamp) -> (r: Result<
        (),
        StateError,
    >)
        ensures
            has_id(old(self)@.tasks, task_id@) ==> r is Ok,
            !has_id(old(self)@.tasks, task_id@) ==> (r matches Err(StateError::NotFound(id)) && id@
                == task_id@),
            final(self)@ == old(self)@.with_status(task_id@, status, at),
    {
        let key = String::from_str(task_id);
        let n = self.tasks.tasks.len();
        let mut i: usize = 0;
        while i < n
            invariant
                i <= n,
                n == self.tasks.tasks@.len(),
                *self == *old(self),
                key@ == task_id@,
                forall|j: int| 0 <= j < i ==> (#[trigger] self@.tasks[j]).id != task_id@,
            decreases n - i,
        {
            if self.tasks.tasks[i].id == key {
                proof {
                    lemma_first_with_id_unique(self@.tasks, task_id@, i as int);
                }
                let id = self.tasks.tasks[i].id.clone();
                let description = self.tasks.tasks[i].description.clone();
                let created_at = self.tasks.tasks[i].created_at;
                let task = Task { id, description, status, created_at, updated_at: at };
                self.tasks.tasks.set(i, task);
                assert(self@.tasks =~= old(self)@.with_status(task_id@, status, at).tasks);
                return Ok(());
            }
            i += 1;
        }
        assert(!has_id(self@.tasks, task_id@));
        Err(StateError::NotFound(key))
    }

    /// Gives `status` to the first task that carries `task_id`, stamped with
    /// the current time. Fails, and changes nothing, where no task carries
    /// that id.
    pub fn update_task_status(&mut self, task_id: &str, status: TaskStatus) -> (r: Result<(), StateError>)
        ensures
            has_id(old(self)@.tasks, task_id@) ==> r is Ok,
            !has_id(old(self)@.tasks, task_id@) ==> (r matches Err(StateError::NotFound(id)) && id@
                == task_id@) && final(self)@ == old(self)@,
            has_id(old(self)@.tasks, task_id@) ==> final(self)@ == old(self)@.with_status(
                task_id@,
                status,
                final(self)@.tasks[first_with_id(old(self)@.tasks, task_id@)].updated_at,
            ),
    {
        let at = now();
        let r = self.update_task_status_at(task_id, status, at);
        proof {
            if has_id(old(self)@.tasks, task_id@) {
                let k = choose|k: int|
                    0 <= k < old(self)@.tasks.len() && (#[trigger] old(self)@.tasks[k]).id == task_id@;
                lemma_first_with_id_exists(old(self)@.tasks, task_id@, k);
            }
        }
        r
    }

    /// The pending tasks, in list order.
    pub fn get_pending_tasks(&self) -> (r: Result<Vec<&Task>, StateError>)
        ensures
            r matches Ok(v) && Seq::new(v@.len(), |k: int| v@[k]@) == pending_of(self@.tasks),
    {
        let mut out: Vec<&Task> = Vec::new();
        let n = self.tasks.tasks.len();
        let mut i: usize = 0;
        proof {
            reveal(Seq::filter);
            assert(self@.tasks.take(0) =~= Seq::empty());
        }
        while i < n
            invariant
                i <= n,
                n == self.tasks.tasks@.len(),
                Seq::new(out@.len(), |k: int| out@[k]@) == pending_of(self@.tasks.take(i as int)),
            decreases n - i,
        {
            let t = &self.tasks.tasks[i];
            let ghost before = Seq::new(out@.len(), |k: int| out@[k]@);
            proof {
                reveal(Seq::filter);
                assert(self@.tasks.take(i + 1).drop_last() =~= self@.tasks.take(i as int));
                assert(self@.tasks.take(i + 1).last() == t@);
            }
            if t.status == TaskStatus::Pending {
                out.push(t);
                assert(Seq::new(out@.len(), |k: int| out@[k]@) =~= before.push(t@));
            }
            i += 1;
        }
        assert(self@.tasks.take(n as int) =~= self@.tasks);
        Ok(out)
    }

    /// Whether every task is completed; true where there is no task.
    pub fn all_tasks_completed(&self) -> (r: Result<bool, StateError>)
        ensures
            r matches Ok(b) && b == all_completed(self@.tasks),
    {
        let n = self.tasks.tasks.len();
        let mut i: usize = 0;
        while i < n
            invariant
                i <= n,
                n == self.tasks.tasks@.len(),
                forall|j: int| 0 <= j < i ==> (#[trigger] self@.tasks[j]).status == TaskStatus::Completed,
            decreases n - i,
        {
            if self.tasks.tasks[i].status != TaskStatus::Completed {
                assert(self@.tasks[i as int].status != TaskStatus::Completed);
                return Ok(false);
            }
            i += 1;
        }
        Ok(true)
    }

    /// The first task that carries `task_id`, if there is one.
    pub fn get_task(&self, task_id: &str) -> (r: Option<&Task>)
        ensures
            match r {
                Some(t) => has_id(self@.tasks, task_id@) && t@ == self@.tasks[first_with_id(
                    self@.tasks,
                    task_id@,
                )],
                None => !has_id(self@.tasks, task_id@),
            },
    {
        let key = String::from_str(task_id);
        let n = self.tasks.tasks.len();
        let mut i: usize = 0;
        while i < n
            invariant
                i <= n,
                n == self.tasks.tasks@.len(),
                key@ == task_id@,
                forall|j: int| 0 <= j < i ==> (#[trigger] self@.tasks[j]).id != task_id@,
            decreases n - i,
        {
            if self.tasks.tasks[i].id == key {
                proof {
                    lemma_first_with_id_unique(self@.tasks, task_id@, i as int);
                }
                return Some(&self.tasks.tasks[i]);
            }
            i += 1;
        }
        None
    }

    /// Whether the list holds any task.
    pub fn has_tasks(&self) -> (r: bool)
        ensures
            r == (self@.tasks.len() > 0),
    {
        self.tasks.tasks.len() > 0
    }
}

/// The empty task list counts as completed.
pub proof fn lemma_empty_list_is_completed()
    ensures
        all_completed(Seq::<TaskView>::empty()),
{
}

/// What comes out of the pending query is pending, and every pending task of
/// the list is among it, however the list is ordered.
pub proof fn lemma_pending_is_exact(tasks: Seq<TaskView>, t: TaskView)
    ensures
        pending_of(tasks).contains(t) <==> (tasks.contains(t) && t.status == TaskStatus::Pending),
{
    let pred = |t: TaskView| is_pending(t);
    let p = pending_of(tasks);
    if p.contains(t) {
        let k = choose|k: int| 0 <= k < p.len() && p[k] == t;
        tasks.lemma_filter_pred(pred, k);
        tasks.lemma_filter_contains_rev(pred, t);
    }
    if tasks.contains(t) && t.status == TaskStatus::Pending {
        let k = choose|k: int| 0 <= k < tasks.len() && tasks[k] == t;
        tasks.lemma_filter_contains(pred, k);
    }
}

/// Whether every task carries the id that it was given when it was added
/// to a list that only ever grew.
pub open spec fn numbered_in_order(tasks: Seq<TaskView>) -> bool {
    forall|i: int| 0 <= i < tasks.len() ==> (#[trigger] tasks[i]).id == task_id(i as nat)
}

/// Whether no two tasks carry the same id.
pub open spec fn ids_unique(tasks: Seq<TaskView>) -> bool {
    forall|i: int, j: int|
        0 <= i < j < tasks.len() ==> (#[trigger] tasks[i]).id != (#[trigger] tasks[j]).id
}

/// Lists of different lengths hand out different ids.
pub proof fn lemma_task_id_injective(a: nat, b: nat)
    requires
        task_id(a) == task_id(b),
    ensures
        a == b,
{
    let prefix = "task_"@;
    assert((prefix + decimal(a + 1)).subrange(prefix.len() as int, (prefix + decimal(a + 1)).len() as int)
        =~= decimal(a + 1));
    assert((prefix + decimal(b + 1)).subrange(prefix.len() as int, (prefix + decimal(b + 1)).len() as int)
        =~= decimal(b + 1));
    lemma_decimal_injective(a + 1, b + 1);
}

/// As long as no task is removed, ids stay unique: the empty list is
/// numbered in order, adding a task and changing a status keep it so, and
/// a list numbered in order holds no id twice.
pub proof fn lemma_ids_unique_without_removal(
    s: StateView,
    description: Seq<char>,
    id: Seq<char>,
    status: TaskStatus,
    at: Timestamp,
)
    requires
        numbered_in_order(s.tasks),
    ensures
        numbered_in_order(Seq::<TaskView>::empty()),
        numbered_in_order(s.with_intent(description, at).tasks),
        numbered_in_order(s.with_task(description, at).tasks),
        numbered_in_order(s.with_status(id, status, at).tasks),
        ids_unique(s.tasks),
{
    assert forall|i: int, j: int| 0 <= i < j < s.tasks.len() implies (#[trigger] s.tasks[i]).id != (
    #[trigger] s.tasks[j]).id by {
        if s.tasks[i].id == s.tasks[j].id {
            lemma_task_id_injective(i as nat, j as nat);
        }
    }
    if has_id(s.tasks, id) {
        let k = choose|k: int| 0 <= k < s.tasks.len() && (#[trigger] s.tasks[k]).id == id;
        lemma_first_with_id_exists(s.tasks, id, k);
    }
}

/// Each task added to a list in turn gets the id numbered one above the
/// length of the list it is added to.
pub proof fn lemma_sequential_ids(s: StateView, first: Seq<char>, second: Seq<char>, at: Timestamp)
    ensures
        s.with_task(first, at).tasks.last().id == task_id(s.tasks.len()),
        s.with_task(first, at).with_task(second, at).tasks.last().id == task_id(s.tasks.len() + 1),
{
}

/// The id of a new task depends on the length of the list alone: a list
/// that was shortened hands out again the id that its last task had.
pub proof fn lemma_id_reused_after_removal(s: StateView, description: Seq<char>, at: Timestamp)
    requires
        s.tasks.len() > 0,
        s.tasks.last().id == task_id((s.tasks.len() - 1) as nat),
    ensures
        (StateView { tasks: s.tasks.drop_last(), ..s }).with_task(description, at).tasks.last().id
            == s.tasks.last().id,
{
}

} // verus!

//! The task manager: the registry of task snapshots, keyed by task
//! identifier, and the decisions that create, cancel and reconcile tasks.
//!
//! The manager never waits and never talks to a worker itself. Each operation
//! changes the registry and tells the runtime what to do with the worker.

use vstd::prelude::*;
use vstd::std_specs::hash::spec_hash_map_iter;
use vstd::std_specs::iter::IteratorSpec;
use std::collections::HashMap;
use crate::environment::{current_time_millis, fresh_task_id, is_random_uuid};
use crate::kind::{ErrorType, TaskType};
use crate::record::{TaskMetadata, TaskRecord};
use crate::worker::{ErrorTask, StartTask, TaskActor};

verus! {

/// Time between the timeout of a task and the deferred look at its worker,
/// in milliseconds.
pub const RECONCILE_GRACE_MS: u64 = 500;

/// Asks for a new task. An empty `name` stands for the default name of the
/// kind.
#[derive(Debug)]
pub struct CreateTask {
    pub name: String,
    pub message: String,
    pub task_type: TaskType,
}

/// Asks for the snapshots of all tasks.
#[derive(Debug, Clone, Copy)]
pub struct GetAllTasks;

/// Asks for the snapshot of one task.
#[derive(Debug, Clone, Copy)]
pub struct GetTask {
    pub id: u128,
}

/// Asks to cancel one task.
#[derive(Debug, Clone, Copy)]
pub struct CancelTaskById {
    pub id: u128,
}

/// Reports the final snapshot of the worker of task `id`.
#[derive(Debug)]
pub struct TaskFinished {
    pub id: u128,
    pub metadata: TaskMetadata,
}

/// What the runtime does with the worker of a task that was just created.
#[derive(Debug)]
pub enum LaunchPlan {
    /// Hand `failure` to the worker at once; it is never started.
    Fail { failure: ErrorTask },
    /// Hand `start` to the worker, and after `probe_after_ms` milliseconds
    /// ask the worker for its snapshot and report it with a
    /// [`TaskFinished`], if the worker still answers.
    Start { start: StartTask, probe_after_ms: u64 },
}

/// Mathematical model of a [`LaunchPlan`].
pub enum LaunchSpec {
    Fail { error: Seq<char> },
    Start { work_ms: nat, probe_after_ms: nat },
}

impl View for LaunchPlan {
    type V = LaunchSpec;

    open spec fn view(&self) -> LaunchSpec {
        match *self {
            LaunchPlan::Fail { failure } => LaunchSpec::Fail { error: failure.error@ },
            LaunchPlan::Start { start, probe_after_ms } => LaunchSpec::Start {
                work_ms: start.duration_ms as nat,
                probe_after_ms: probe_after_ms as nat,
            },
        }
    }
}

/// A task that was just created: its identifier, its worker, and what to do
/// with the worker.
#[derive(Debug)]
pub struct Launch {
    pub id: u128,
    pub worker: TaskActor,
    pub plan: LaunchPlan,
}

/// The error text of a task that fails right after creation because its kind
/// says so.
pub open spec fn immediate_failure_text() -> Seq<char> {
    "Immediate failure simulation"@
}

/// The error text of a task that fails right after creation because its
/// random draw fell below its failure rate.
pub open spec fn random_failure_text() -> Seq<char> {
    "Random failure simulation"@
}

/// The name under which a task is created: the one asked for, or the default
/// of the kind where none was given.
pub open spec fn task_name(name: Seq<char>, kind: TaskType) -> Seq<char> {
    if name.len() == 0 {
        kind.default_name()
    } else {
        name
    }
}

/// When to look at the worker of a task with the given timeout: a grace
/// period after the timeout (as far as 64 bits reach).
pub open spec fn probe_delay(timeout_ms: nat) -> nat {
    if timeout_ms + RECONCILE_GRACE_MS <= u64::MAX {
        timeout_ms + RECONCILE_GRACE_MS as nat
    } else {
        u64::MAX as nat
    }
}

/// What is done with the worker of a new task of kind `kind`, given the
/// random draw `draw`.
///
/// A task whose kind calls for an immediate failure, and a `Custom` task
/// whose draw calls for a failure, fail at once. Every other task is
/// started, its work lasting as its kind says.
pub open spec fn launch_plan(kind: TaskType, draw: u32) -> LaunchSpec {
    match kind.failure(draw) {
        Some(ErrorType::Immediate) => LaunchSpec::Fail { error: immediate_failure_text() },
        Some(ErrorType::Random) if kind is Custom => LaunchSpec::Fail {
            error: random_failure_text(),
        },
        _ => LaunchSpec::Start {
            work_ms: kind.work_duration(),
            probe_after_ms: probe_delay(kind.effective_timeout()),
        },
    }
}

/// The identifier `k` steps after `start`, counting upwards and from the
/// largest identifier on to zero. Meant for `k` up to the number of
/// identifiers there are.
pub open spec fn offset(start: u128, k: int) -> u128 {
    if start + k <= u128::MAX {
        (start + k) as u128
    } else {
        (start + k - 0x1_0000_0000_0000_0000_0000_0000_0000_0000) as u128
    }
}

/// Whether `id` is the first identifier from `start` on, counting upwards,
/// that is not in `taken`.
pub open spec fn is_first_free(taken: Set<u128>, start: u128, id: u128) -> bool {
    exists|k: int|
        {
            &&& 0 <= k <= taken.len()
            &&& #[trigger] offset(start, k) == id
            &&& !taken.contains(id)
            &&& forall|j: int| 0 <= j < k ==> taken.contains(#[trigger] offset(start, j))
        }
}

/// The first `n` identifiers from `start` on.
spec fn run_of_ids(start: u128, n: int) -> Set<u128> {
    Set::new(|id: u128| exists|k: int| 0 <= k < n && id == #[trigger] offset(start, k))
}

/// The first `n` identifiers from `start` on are `n` different ones, as long
/// as `n` stays within 64 bits.
proof fn lemma_run_of_ids_len(start: u128, n: int)
    requires
        0 <= n <= u64::MAX + 1,
    ensures
        run_of_ids(start, n).finite(),
        run_of_ids(start, n).len() == n,
    decreases n,
{
    if n == 0 {
        assert(run_of_ids(start, 0) =~= Set::empty());
    } else {
        lemma_run_of_ids_len(start, n - 1);
        let before = run_of_ids(start, n - 1);
        let last = offset(start, n - 1);
        assert(!before.contains(last));
        assert forall|id: u128| run_of_ids(start, n).contains(id) implies before.insert(
            last,
        ).contains(id) by {
            let k = choose|k: int| 0 <= k < n && id == #[trigger] offset(start, k);
            if k < n - 1 {
                assert(before.contains(id));
            }
        }
        assert forall|id: u128| before.insert(last).contains(id) implies run_of_ids(
            start,
            n,
        ).contains(id) by {
            if id == last {
                assert(id == offset(start, n - 1));
            } else {
                let k = choose|k: int| 0 <= k < n - 1 && id == #[trigger] offset(start, k);
                assert(0 <= k < n && id == offset(start, k));
            }
        }
        assert(run_of_ids(start, n) =~= before.insert(last));
    }
}

/// Mathematical model of the manager: the registry rows, and the set of
/// tasks whose worker the manager still holds a handle to.
pub struct Registry {
    pub rows: Map<u128, TaskRecord>,
    pub live: Set<u128>,
}

impl Registry {
    /// The registry without tasks.
    pub open spec fn empty() -> Registry {
        Registry { rows: Map::empty(), live: Set::empty() }
    }

    /// The consistency of a registry: it has finitely many rows; each row is
    /// a consistent record and stands under its own identifier; a handle is
    /// held only for a task with a row, and for every task in progress.
    pub open spec fn consistent(self) -> bool {
        &&& self.rows.dom().finite()
        &&& forall|id: u128| #[trigger]
            self.rows.contains_key(id) ==> {
                &&& self.rows[id].wf()
                &&& self.rows[id].id == id
                &&& (!self.rows[id].is_terminal() ==> self.live.contains(id))
            }
        &&& forall|id: u128| #[trigger] self.live.contains(id) ==> self.rows.contains_key(id)
    }

    /// The registry after a task with the initial record `row` was created.
    pub open spec fn registered(self, row: TaskRecord) -> Registry {
        Registry { rows: self.rows.insert(row.id, row), live: self.live.insert(row.id) }
    }

    /// Whether task `id` can be cancelled: it is known and in progress.
    pub open spec fn cancellable(self, id: u128) -> bool {
        self.rows.contains_key(id) && !self.rows[id].is_terminal()
    }

    /// The registry after a request to cancel task `id` at time `now`: the
    /// row of a cancellable task is marked cancelled at once; nothing changes
    /// otherwise.
    pub open spec fn cancelled(self, id: u128, now: int) -> Registry {
        if self.cancellable(id) {
            Registry { rows: self.rows.insert(id, self.rows[id].cancelled(now)), ..self }
        } else {
            self
        }
    }

    /// Whether `snapshot` is taken as the final state of task `id`: the
    /// manager still holds the handle of the worker, and the snapshot is of
    /// that task, terminal and consistent.
    pub open spec fn accepts(self, id: u128, snapshot: TaskRecord) -> bool {
        &&& self.live.contains(id)
        &&& snapshot.id == id
        &&& snapshot.is_terminal()
        &&& snapshot.wf()
    }

    /// The registry after `snapshot` was reported for task `id`: an accepted
    /// snapshot replaces the row and the handle is dropped; nothing changes
    /// otherwise.
    pub open spec fn reconciled(self, id: u128, snapshot: TaskRecord) -> Registry {
        if self.accepts(id, snapshot) {
            Registry { rows: self.rows.insert(id, snapshot), live: self.live.remove(id) }
        } else {
            self
        }
    }
}

/// One row of the registry.
#[derive(Debug)]
struct Slot {
    metadata: TaskMetadata,
    /// Whether the manager still holds the handle of the worker.
    handle_held: bool,
}

/// The task manager.
#[derive(Debug)]
pub struct TaskManagerActor {
    tasks: HashMap<u128, Slot>,
}

impl View for TaskManagerActor {
    type V = Registry;

    closed spec fn view(&self) -> Registry {
        Registry {
            rows: Map::new(
                |id: u128| self.tasks@.contains_key(id),
                |id: u128| self.tasks@[id].metadata@,
            ),
            live: Set::new(|id: u128| self.tasks@.contains_key(id) && self.tasks@[id].handle_held),
        }
    }
}

impl Default for TaskManagerActor {
    fn default() -> (manager: Self)
        ensures
            manager@ == Registry::empty(),
    {
        TaskManagerActor::new()
    }
}

/// Decides what is done with the worker of a new task.
pub fn plan_launch(kind: &TaskType, draw: u32) -> (plan: LaunchPlan)
    ensures
        plan@ == launch_plan(*kind, draw),
{
    let failure = kind.should_fail(draw);
    let is_custom = match kind {
        TaskType::Custom { .. } => true,
        _ => false,
    };
    match failure {
        Some(ErrorType::Immediate) => LaunchPlan::Fail {
            failure: ErrorTask { error: "Immediate failure simulation".to_string() },
        },
        Some(ErrorType::Random) if is_custom => LaunchPlan::Fail {
            failure: ErrorTask { error: "Random failure simulation".to_string() },
        },
        _ => LaunchPlan::Start {
            start: StartTask { duration_ms: kind.work_duration_ms() },
            probe_after_ms: kind.get_timeout().saturating_add(RECONCILE_GRACE_MS),
        },
    }
}

impl TaskManagerActor {
    #[verifier::type_invariant]
    spec fn inv(self) -> bool {
        forall|id: u128| #[trigger]
            self.tasks@.contains_key(id) ==> {
                &&& self.tasks@[id].metadata@.wf()
                &&& self.tasks@[id].metadata.id == id
                &&& (!self.tasks@[id].metadata@.is_terminal() ==> self.tasks@[id].handle_held)
            }
    }

    /// What the invariant of the type means for the model.
    proof fn lemma_consistent(self)
        requires
            self.inv(),
        ensures
            self@.consistent(),
            self@.rows.dom() == self.tasks@.dom(),
    {
        broadcast use vstd::std_specs::hash::axiom_hashmap_view_finite_dom;

        assert(self.tasks@.dom().finite());
        assert(self@.rows.dom() =~= self.tasks@.dom());
    }

    /// A manager without tasks.
    pub fn new() -> (manager: Self)
        ensures
            manager@ == Registry::empty(),
            manager@.consistent(),
    {
        let manager = TaskManagerActor { tasks: HashMap::new() };
        assert(manager@.rows =~= Map::empty());
        assert(manager@.live =~= Set::empty());
        manager
    }

    /// The first identifier from `start` on under which no row stands.
    fn free_id_from(&self, start: u128) -> (id: u128)
        ensures
            is_first_free(self@.rows.dom(), start, id),
    {
        proof {
            use_type_invariant(self);
            self.lemma_consistent();
        }
        let mut id = start;
        let mut steps: usize = 0;
        while self.tasks.contains_key(&id)
            invariant
                self@.rows.dom() == self.tasks@.dom(),
                self.tasks@.dom().finite(),
                steps <= self.tasks.len(),
                id == offset(start, steps as int),
                forall|j: int| 0 <= j < steps ==> self.tasks@.contains_key(#[trigger] offset(start, j)),
            decreases self.tasks.len() - steps,
        {
            proof {
                let seen = run_of_ids(start, steps + 1);
                lemma_run_of_ids_len(start, steps + 1);
                assert(seen.subset_of(self.tasks@.dom()));
                vstd::set_lib::lemma_len_subset(seen, self.tasks@.dom());
            }
            id = if id == u128::MAX {
                0
            } else {
                id + 1
            };
            steps += 1;
        }
        proof {
            assert(offset(start, steps as int) == id);
        }
        id
    }

    /// Creates a task at time `now`: registers its initial row, and returns
    /// its worker with the plan for it. The task gets the identifier `id`,
    /// or, where a row stands under `id` already, the first free identifier
    /// after it.
    pub fn create_task_at(&mut self, id: u128, now: i64, msg: CreateTask, draw: u32) -> (launch:
        Launch)
        ensures
            is_first_free(old(self)@.rows.dom(), id, launch.id),
            !old(self)@.rows.contains_key(launch.id),
            launch.worker.metadata@ == TaskRecord::fresh(
                launch.id,
                now as int,
                task_name(msg.name@, msg.task_type),
                msg.message@,
                msg.task_type.effective_timeout(),
            ),
            launch.plan@ == launch_plan(msg.task_type, draw),
            final(self)@ == old(self)@.registered(launch.worker.metadata@),
            final(self)@.consistent(),
    {
        let timeout_ms = msg.task_type.get_timeout();
        let plan = plan_launch(&msg.task_type, draw);
        let name = if msg.name.as_str().is_empty() {
            msg.task_type.get_name()
        } else {
            msg.name
        };
        let id = self.free_id_from(id);
        let worker = TaskActor::new_at(id, now, name, msg.message, timeout_ms);
        self.register(&worker);
        Launch { id, worker, plan }
    }

    /// Creates a task: registers its initial row, and returns its worker
    /// with the plan for it. The identifier is a random UUID, or, should a
    /// row stand under that one already, the first free identifier after it;
    /// the creation time is whatever the clock gave.
    pub fn create_task(&mut self, msg: CreateTask, draw: u32) -> (launch: Launch)
        ensures
            exists|drawn: u128|
                is_random_uuid(drawn) && #[trigger] is_first_free(
                    old(self)@.rows.dom(),
                    drawn,
                    launch.id,
                ),
            !old(self)@.rows.contains_key(launch.id),
            launch.worker.metadata@ == TaskRecord::fresh(
                launch.id,
                launch.worker.metadata.started_at as int,
                task_name(msg.name@, msg.task_type),
                msg.message@,
                msg.task_type.effective_timeout(),
            ),
            launch.plan@ == launch_plan(msg.task_type, draw),
            final(self)@ == old(self)@.registered(launch.worker.metadata@),
            final(self)@.consistent(),
    {
        let id = fresh_task_id();
        let now = current_time_millis();
        self.create_task_at(id, now, msg, draw)
    }

    /// Puts `slot` under `id`, in place of what stood there.
    fn put(&mut self, id: u128, slot: Slot)
        requires
            slot.metadata@.wf(),
            slot.metadata.id == id,
            !slot.metadata@.is_terminal() ==> slot.handle_held,
        ensures
            final(self).tasks@ == old(self).tasks@.insert(id, slot),
    {
        proof {
            use_type_invariant(&*self);
        }
        let mut tasks: HashMap<u128, Slot> = HashMap::new();
        std::mem::swap(&mut self.tasks, &mut tasks);
        tasks.insert(id, slot);
        self.tasks = tasks;
    }

    /// Enters the initial row of a new worker and notes that its handle is
    /// held.
    fn register(&mut self, worker: &TaskActor)
        requires
            worker.metadata@.wf(),
            !worker.metadata@.is_terminal(),
        ensures
            final(self)@ == old(self)@.registered(worker.metadata@),
            final(self)@.consistent(),
    {
        proof {
            use_type_invariant(&*self);
        }
        let id = worker.metadata.id;
        let row = worker.metadata.clone();
        self.put(id, Slot { metadata: row, handle_held: true });
        proof {
            use_type_invariant(&*self);
            self.lemma_consistent();
            assert(self@.rows =~= old(self)@.rows.insert(id, worker.metadata@));
            assert(self@.live =~= old(self)@.live.insert(id));
        }
    }

    /// The snapshots of all tasks, each once, in no particular order.
    pub fn get_all_tasks(&self, _msg: GetAllTasks) -> (all: Vec<TaskMetadata>)
        ensures
            all.len() == self@.rows.len(),
            forall|i: int|
                #![trigger all[i]]
                0 <= i < all.len() ==> self@.rows.contains_key(all[i].id) && all[i]@
                    == self@.rows[all[i].id],
            forall|i: int, j: int| 0 <= i < j < all.len() ==> all[i].id != all[j].id,
            self@.consistent(),
    {
        proof {
            use_type_invariant(self);
            self.lemma_consistent();
        }
        let mut all: Vec<TaskMetadata> = Vec::new();
        for entry in it: self.tasks.iter()
            invariant
                it.seq() == spec_hash_map_iter(&self.tasks).remaining(),
                it.seq().no_duplicates(),
                all.len() == it.index(),
                forall|j: int| 0 <= j < all.len() ==> all[j] == it.seq()[j].1.metadata,
        {
            all.push(entry.1.metadata.clone());
        }
        proof {
            broadcast use vstd::std_specs::hash::axiom_spec_hash_map_iter;

            let pairs = spec_hash_map_iter(&self.tasks).remaining();
            assert(all.len() == pairs.len());
            assert forall|i: int| 0 <= i < all.len() implies self@.rows.contains_key(
                all[i].id,
            ) && all[i]@ == self@.rows[all[i].id] && #[trigger] all[i].id == *pairs[i].0 by {
                assert(self.tasks@.contains_key(*pairs[i].0));
            }
            assert forall|i: int, j: int| 0 <= i < j < all.len() implies all[i].id
                != all[j].id by {
                assert(self.tasks@.contains_key(*pairs[i].0));
                assert(self.tasks@.contains_key(*pairs[j].0));
                if all[i].id == all[j].id {
                    assert(pairs[i] == pairs[j]);
                }
            }
        }
        all
    }

    /// The snapshot of task `id`, if there is such a task.
    pub fn get_task(&self, msg: GetTask) -> (found: Option<TaskMetadata>)
        ensures
            found is Some <==> self@.rows.contains_key(msg.id),
            found is Some ==> found.unwrap()@ == self@.rows[msg.id],
            self@.consistent(),
    {
        proof {
            use_type_invariant(self);
            self.lemma_consistent();
        }
        match self.tasks.get(&msg.id) {
            Some(slot) => Some(slot.metadata.clone()),
            None => None,
        }
    }

    /// Cancels task `id` at time `now` if it is known and in progress: its
    /// row is marked cancelled at once. Returns whether it did; the worker is
    /// then to be handed a cancellation.
    pub fn cancel_task_by_id_at(&mut self, msg: CancelTaskById, now: i64) -> (cancelled: bool)
        ensures
            cancelled == old(self)@.cancellable(msg.id),
            final(self)@ == old(self)@.cancelled(msg.id, now as int),
            !old(self)@.rows.contains_key(msg.id) ==> !cancelled && final(self)@ == old(self)@,
            final(self)@.consistent(),
    {
        proof {
            use_type_invariant(&*self);
            self.lemma_consistent();
        }
        let mut row = match self.tasks.get(&msg.id) {
            Some(slot) => slot.metadata.clone(),
            None => {
                return false;
            },
        };
        if row.status != crate::record::TaskStatus::InProgress {
            return false;
        }
        row.mark_cancelled_at(now);
        self.put(msg.id, Slot { metadata: row, handle_held: true });
        proof {
            use_type_invariant(&*self);
            self.lemma_consistent();
            assert(self@.rows =~= old(self)@.cancelled(msg.id, now as int).rows);
            assert(self@.live =~= old(self)@.live);
        }
        true
    }

    /// Cancels task `id` at the current time if it is known and in progress.
    /// Returns whether it did; the worker is then to be handed a
    /// cancellation.
    pub fn cancel_task_by_id(&mut self, msg: CancelTaskById) -> (cancelled: bool)
        ensures
            cancelled == old(self)@.cancellable(msg.id),
            exists|now: int| final(self)@ == #[trigger] old(self)@.cancelled(msg.id, now),
            !old(self)@.cancellable(msg.id) ==> final(self)@ == old(self)@,
            final(self)@.consistent(),
    {
        let now = current_time_millis();
        self.cancel_task_by_id_at(msg, now)
    }

    /// Takes the final snapshot of a worker: where the manager still holds
    /// the handle of that worker and the snapshot is of that task, terminal
    /// and consistent, it replaces the row and the handle is dropped.
    /// Anything else is ignored. Returns whether the snapshot was taken; the
    /// runtime then lets go of the worker.
    pub fn task_finished(&mut self, msg: TaskFinished) -> (taken: bool)
        ensures
            taken == old(self)@.accepts(msg.id, msg.metadata@),
            final(self)@ == old(self)@.reconciled(msg.id, msg.metadata@),
            final(self)@.consistent(),
    {
        proof {
            use_type_invariant(&*self);
            self.lemma_consistent();
        }
        let held = match self.tasks.get(&msg.id) {
            Some(slot) => slot.handle_held,
            None => false,
        };
        if held && msg.metadata.id == msg.id && msg.metadata.status
            != crate::record::TaskStatus::InProgress && msg.metadata.is_consistent() {
            self.put(msg.id, Slot { metadata: msg.metadata, handle_held: true });
            proof {
                assert(self@.rows =~= old(self)@.rows.insert(msg.id, msg.metadata@));
                assert(self@.live =~= old(self)@.live);
            }
            self.cleanup_finished_task(msg.id);
            proof {
                use_type_invariant(&*self);
                self.lemma_consistent();
            }
            true
        } else {
            false
        }
    }

    /// Drops the handle of the worker of a task that has finished.
    fn cleanup_finished_task(&mut self, task_id: u128)
        ensures
            final(self)@.rows == old(self)@.rows,
            old(self)@.rows.contains_key(task_id) && old(self)@.rows[task_id].is_terminal()
                ==> final(self)@.live == old(self)@.live.remove(task_id),
            !(old(self)@.rows.contains_key(task_id) && old(self)@.rows[task_id].is_terminal())
                ==> final(self)@.live == old(self)@.live,
    {
        proof {
            use_type_invariant(&*self);
        }
        let row = match self.tasks.get(&task_id) {
            Some(slot) => slot.metadata.clone(),
            None => {
                return ;
            },
        };
        if row.status != crate::record::TaskStatus::InProgress {
            self.put(task_id, Slot { metadata: row, handle_held: false });
            proof {
                assert(self@.rows =~= old(self)@.rows);
                assert(self@.live =~= old(self)@.live.remove(task_id));
            }
        }
    }
}

/// The empty registry is consistent.
pub proof fn lemma_empty_is_consistent()
    ensures
        Registry::empty().consistent(),
{
}

/// Creating a task keeps the registry consistent, given a consistent
/// initial record of a task in progress.
pub proof fn lemma_registered_keeps_consistency(r: Registry, row: TaskRecord)
    requires
        r.consistent(),
        row.wf(),
        !row.is_terminal(),
    ensures
        r.registered(row).consistent(),
        r.registered(row).rows[row.id] == row,
        r.registered(row).cancellable(row.id),
{
}

/// Creating a task under a free identifier adds one row and leaves every
/// other row as it was.
pub proof fn lemma_registered_adds_one_row(r: Registry, row: TaskRecord)
    requires
        r.consistent(),
        !r.rows.contains_key(row.id),
    ensures
        r.registered(row).rows.len() == r.rows.len() + 1,
        forall|id: u128| r.rows.contains_key(id) ==> r.registered(row).rows[id] == r.rows[id],
{
}

/// From every start there is exactly one first free identifier; it is the
/// start itself where that is free.
pub proof fn lemma_first_free_is_unique(taken: Set<u128>, start: u128, a: u128, b: u128)
    requires
        is_first_free(taken, start, a),
        is_first_free(taken, start, b),
    ensures
        a == b,
        !taken.contains(start) ==> a == start,
{
    let ka = choose|k: int|
        {
            &&& 0 <= k <= taken.len()
            &&& #[trigger] offset(start, k) == a
            &&& !taken.contains(a)
            &&& forall|j: int| 0 <= j < k ==> taken.contains(#[trigger] offset(start, j))
        };
    let kb = choose|k: int|
        {
            &&& 0 <= k <= taken.len()
            &&& #[trigger] offset(start, k) == b
            &&& !taken.contains(b)
            &&& forall|j: int| 0 <= j < k ==> taken.contains(#[trigger] offset(start, j))
        };
    if ka < kb {
        assert(taken.contains(offset(start, ka)));
    }
    if kb < ka {
        assert(taken.contains(offset(start, kb)));
    }
    if !taken.contains(start) && ka > 0 {
        assert(taken.contains(offset(start, 0)));
    }
}

/// A request to cancel keeps the registry consistent.
pub proof fn lemma_cancelled_keeps_consistency(r: Registry, id: u128, now: int)
    requires
        r.consistent(),
    ensures
        r.cancelled(id, now).consistent(),
{
    let after = r.cancelled(id, now);
    if r.cancellable(id) {
        assert(after.rows.dom() =~= r.rows.dom());
        assert forall|k: u128| #[trigger] after.rows.contains_key(k) implies {
            &&& after.rows[k].wf()
            &&& after.rows[k].id == k
            &&& (!after.rows[k].is_terminal() ==> after.live.contains(k))
        } by {
            assert(r.rows.contains_key(k));
        }
    }
}

/// A reported snapshot keeps the registry consistent, whether it is
/// accepted or not.
pub proof fn lemma_reconciled_keeps_consistency(r: Registry, id: u128, snapshot: TaskRecord)
    requires
        r.consistent(),
    ensures
        r.reconciled(id, snapshot).consistent(),
{
    let after = r.reconciled(id, snapshot);
    if r.accepts(id, snapshot) {
        assert(r.rows.contains_key(id));
        assert(after.rows.dom() =~= r.rows.dom());
        assert forall|k: u128| #[trigger] after.rows.contains_key(k) implies {
            &&& after.rows[k].wf()
            &&& after.rows[k].id == k
            &&& (!after.rows[k].is_terminal() ==> after.live.contains(k))
        } by {
            assert(r.rows.contains_key(k));
        }
    }
}

/// In a consistent registry every row is in progress exactly while it has no
/// finish time.
pub proof fn lemma_rows_in_progress_iff_unfinished(r: Registry, id: u128)
    requires
        r.consistent(),
        r.rows.contains_key(id),
    ensures
        r.rows[id].status is InProgress <==> r.rows[id].finished_at is None,
{
}

/// A request to cancel a task that is unknown changes nothing: no row is
/// made, and the request is refused.
pub proof fn lemma_cancel_of_unknown_task(r: Registry, id: u128, now: int)
    requires
        !r.rows.contains_key(id),
    ensures
        !r.cancellable(id),
        r.cancelled(id, now) == r,
{
}

/// A request to cancel a task that is already terminal changes nothing, and
/// is refused.
pub proof fn lemma_cancel_of_terminal_task(r: Registry, id: u128, now: int)
    requires
        r.rows.contains_key(id),
        r.rows[id].is_terminal(),
    ensures
        !r.cancellable(id),
        r.cancelled(id, now) == r,
{
}

/// A request to cancel a task in progress marks its row at once: the row is
/// in `Error`, carries the cancellation time as finish time and the
/// cancellation text as error, and has no result. Everything else in the
/// registry stays, and a second request is refused.
pub proof fn lemma_cancel_of_task_in_progress(r: Registry, id: u128, now: int)
    requires
        r.cancellable(id),
    ensures
        r.cancelled(id, now).rows[id] == r.rows[id].cancelled(now),
        r.cancelled(id, now).rows[id].status is Error,
        r.cancelled(id, now).rows[id].cancelled_at == Some(now),
        r.cancelled(id, now).rows[id].finished_at == Some(now),
        r.cancelled(id, now).rows[id].error == Some(crate::record::cancelled_text()),
        r.cancelled(id, now).rows.dom() == r.rows.dom(),
        r.cancelled(id, now).live == r.live,
        forall|other: u128| other != id ==> r.cancelled(id, now).rows[other] == r.rows[other],
        !r.cancelled(id, now).cancellable(id),
{
    assert(r.cancelled(id, now).rows.dom() =~= r.rows.dom());
}

/// The row that a request to cancel writes is the record that the worker
/// itself reaches when it takes the cancellation at the same time.
pub proof fn lemma_cancelled_row_anticipates_worker(r: Registry, id: u128, now: int)
    requires
        r.cancellable(id),
    ensures
        r.cancelled(id, now).rows[id] == crate::worker::step(
            r.rows[id],
            crate::worker::WorkerEvent::Cancel,
            now,
        ),
{
}

/// An accepted snapshot becomes the row of its task, also over a row that a
/// request to cancel had marked before; the handle of the worker is dropped.
pub proof fn lemma_accepted_snapshot_is_the_row(r: Registry, id: u128, snapshot: TaskRecord)
    requires
        r.accepts(id, snapshot),
    ensures
        r.reconciled(id, snapshot).rows[id] == snapshot,
        !r.reconciled(id, snapshot).live.contains(id),
        forall|other: u128| other != id ==> r.reconciled(id, snapshot).rows[other] == r.rows[other],
{
}

/// The snapshot of a worker that has reached its end is taken, whatever run
/// of events led there and whatever a request to cancel did to the row in
/// between, as long as the manager holds the handle of the worker.
pub proof fn lemma_final_snapshot_is_taken(
    r: Registry,
    created: TaskRecord,
    events: Seq<(crate::worker::WorkerEvent, int)>,
)
    requires
        created.wf(),
        r.live.contains(created.id),
        crate::worker::run(created, events).is_terminal(),
    ensures
        r.accepts(created.id, crate::worker::run(created, events)),
        r.reconciled(created.id, crate::worker::run(created, events)).rows[created.id]
            == crate::worker::run(created, events),
{
    crate::worker::lemma_run_keeps_identity(created, events);
    crate::worker::lemma_run_keeps_consistency(created, events);
}

/// Each task is reconciled once: when the handle of its worker is gone, be
/// it after an accepted snapshot or because the task was never known, a
/// reported snapshot changes nothing.
pub proof fn lemma_reconciled_once(r: Registry, id: u128, first: TaskRecord, second: TaskRecord)
    ensures
        !r.live.contains(id) ==> r.reconciled(id, second) == r,
        r.accepts(id, first) ==> r.reconciled(id, first).reconciled(id, second) == r.reconciled(
            id,
            first,
        ),
{
}

/// A snapshot of a task that is still in progress is never taken for its
/// final state.
pub proof fn lemma_unfinished_snapshot_is_ignored(r: Registry, id: u128, snapshot: TaskRecord)
    requires
        !snapshot.is_terminal(),
    ensures
        r.reconciled(id, snapshot) == r,
{
}

/// A row never returns to `InProgress`: whatever is created, cancelled or
/// reported, a task that the registry shows as terminal is shown as terminal
/// afterwards.
pub proof fn lemma_terminal_rows_stay_terminal(
    r: Registry,
    id: u128,
    row: TaskRecord,
    other: u128,
    snapshot: TaskRecord,
    now: int,
)
    requires
        r.rows.contains_key(id),
        r.rows[id].is_terminal(),
        !r.rows.contains_key(row.id),
    ensures
        r.registered(row).rows[id].is_terminal(),
        r.cancelled(other, now).rows[id].is_terminal(),
        r.reconciled(other, snapshot).rows[id].is_terminal(),
{
}

/// Once the final snapshot of a task has been taken its row is settled: no
/// creation, no request to cancel and no further report changes it.
pub proof fn lemma_reconciled_row_is_settled(
    r: Registry,
    id: u128,
    row: TaskRecord,
    other: u128,
    snapshot: TaskRecord,
    now: int,
)
    requires
        r.consistent(),
        r.rows.contains_key(id),
        !r.live.contains(id),
        !r.rows.contains_key(row.id),
    ensures
        r.rows[id].is_terminal(),
        r.registered(row).rows[id] == r.rows[id],
        r.cancelled(other, now).rows[id] == r.rows[id],
        r.reconciled(other, snapshot).rows[id] == r.rows[id],
        !r.registered(row).live.contains(id),
        !r.cancelled(other, now).live.contains(id),
        !r.reconciled(other, snapshot).live.contains(id),
{
}

/// No operation removes a row.
pub proof fn lemma_rows_are_kept(
    r: Registry,
    id: u128,
    row: TaskRecord,
    other: u128,
    snapshot: TaskRecord,
    now: int,
)
    requires
        r.rows.contains_key(id),
    ensures
        r.registered(row).rows.contains_key(id),
        r.cancelled(other, now).rows.contains_key(id),
        r.reconciled(other, snapshot).rows.contains_key(id),
{
}

} // verus!

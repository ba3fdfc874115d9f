//! The task worker: one task's state machine, from `InProgress` to exactly
//! one terminal outcome.
//!
//! The worker takes messages and answers each with an action for the runtime
//! that hosts it. It never waits: the two timers of a running task are armed
//! by the runtime, and their firing comes back as a message.

use vstd::prelude::*;
use vstd::string::*;
use crate::environment::{current_time_millis, fresh_task_id, is_random_uuid};
use crate::record::{TaskMetadata, TaskRecord, TaskStatus, MIN_TIMEOUT_MS};
use crate::text::{decimal, decimal_string};

verus! {

/// Starts the task: its simulated work takes `duration_ms` milliseconds.
#[derive(Debug, Clone, Copy)]
pub struct StartTask {
    pub duration_ms: u64,
}

/// The work of the task is done, with this result.
#[derive(Debug)]
pub struct CompleteTask {
    pub result: String,
}

impl Clone for CompleteTask {
    fn clone(&self) -> (copy: Self)
        ensures
            copy == *self,
    {
        CompleteTask { result: self.result.clone() }
    }
}

/// The task has failed, with this error text.
#[derive(Debug)]
pub struct ErrorTask {
    pub error: String,
}

impl Clone for ErrorTask {
    fn clone(&self) -> (copy: Self)
        ensures
            copy == *self,
    {
        ErrorTask { error: self.error.clone() }
    }
}

/// The task is to be cancelled.
#[derive(Debug, Clone, Copy)]
pub struct CancelTask;

/// Asks for the current snapshot of the task.
#[derive(Debug, Clone, Copy)]
pub struct GetTaskStatus;

/// The timeout of the task has elapsed.
#[derive(Debug)]
pub struct TimeoutTask;

/// A message that can move the state machine of a worker.
#[derive(Debug)]
pub enum WorkerMessage {
    Start(StartTask),
    Complete(CompleteTask),
    Error(ErrorTask),
    Cancel(CancelTask),
    Timeout(TimeoutTask),
}

/// Mathematical model of a [`WorkerMessage`].
pub enum WorkerEvent {
    Start { duration_ms: nat },
    Complete { result: Seq<char> },
    Fail { error: Seq<char> },
    Cancel,
    Timeout,
}

impl View for WorkerMessage {
    type V = WorkerEvent;

    open spec fn view(&self) -> WorkerEvent {
        match *self {
            WorkerMessage::Start(m) => WorkerEvent::Start { duration_ms: m.duration_ms as nat },
            WorkerMessage::Complete(m) => WorkerEvent::Complete { result: m.result@ },
            WorkerMessage::Error(m) => WorkerEvent::Fail { error: m.error@ },
            WorkerMessage::Cancel(_) => WorkerEvent::Cancel,
            WorkerMessage::Timeout(_) => WorkerEvent::Timeout,
        }
    }
}

/// What the runtime does after the worker has taken a message.
#[derive(Debug)]
pub enum WorkerAction {
    /// Nothing.
    Idle,
    /// Arm two independent timers. When `work_ms` milliseconds have passed,
    /// hand `completion` to the worker; when `timeout_ms` have passed, hand
    /// it a [`TimeoutTask`].
    ArmTimers { work_ms: u64, completion: CompleteTask, timeout_ms: u64 },
    /// The worker has just reached its terminal state: stop it, and report
    /// its snapshot to the manager.
    Retire,
}

/// Mathematical model of a [`WorkerAction`].
pub enum WorkerReaction {
    Idle,
    ArmTimers { work_ms: nat, completion: Seq<char>, timeout_ms: nat },
    Retire,
}

impl View for WorkerAction {
    type V = WorkerReaction;

    open spec fn view(&self) -> WorkerReaction {
        match *self {
            WorkerAction::Idle => WorkerReaction::Idle,
            WorkerAction::ArmTimers { work_ms, completion, timeout_ms } => {
                WorkerReaction::ArmTimers {
                    work_ms: work_ms as nat,
                    completion: completion.result@,
                    timeout_ms: timeout_ms as nat,
                }
            },
            WorkerAction::Retire => WorkerReaction::Retire,
        }
    }
}

/// The result text of a task whose work came to its end.
pub open spec fn success_text() -> Seq<char> {
    "Task completed successfully"@
}

/// The error text of a task that ran into its timeout.
pub open spec fn timeout_text(timeout_ms: nat) -> Seq<char> {
    "Task timed out after "@ + decimal(timeout_ms) + "ms"@
}

/// The timeout under which a worker runs that was asked for `requested_ms`.
pub open spec fn floored_timeout(requested_ms: nat) -> nat {
    if requested_ms >= MIN_TIMEOUT_MS {
        requested_ms
    } else {
        MIN_TIMEOUT_MS as nat
    }
}

/// The record of a worker after it has taken `event` at time `now`.
///
/// A terminal record takes nothing any more. A record in progress is left
/// as it is by `Start`, and finished by each of the other events.
pub open spec fn step(r: TaskRecord, event: WorkerEvent, now: int) -> TaskRecord {
    match event {
        WorkerEvent::Start { .. } => r,
        WorkerEvent::Complete { result } => r.completed(now, result),
        WorkerEvent::Fail { error } => r.failed(now, error, false),
        WorkerEvent::Cancel => r.cancelled(now),
        WorkerEvent::Timeout => r.failed(now, timeout_text(r.timeout_ms), true),
    }
}

/// What a worker with record `r` asks of the runtime when it takes `event`.
pub open spec fn reaction(r: TaskRecord, event: WorkerEvent) -> WorkerReaction {
    if r.is_terminal() {
        WorkerReaction::Idle
    } else {
        match event {
            WorkerEvent::Start { duration_ms } => WorkerReaction::ArmTimers {
                work_ms: duration_ms,
                completion: success_text(),
                timeout_ms: r.timeout_ms,
            },
            _ => WorkerReaction::Retire,
        }
    }
}

/// The record after a run of events, each with the time at which it was
/// taken.
pub open spec fn run(r: TaskRecord, events: Seq<(WorkerEvent, int)>) -> TaskRecord
    decreases events.len(),
{
    if events.len() == 0 {
        r
    } else {
        run(step(r, events[0].0, events[0].1), events.drop_first())
    }
}

/// The worker of one task.
#[derive(Debug)]
pub struct TaskActor {
    pub metadata: TaskMetadata,
}

impl TaskActor {
    /// A worker for a new task, with the given identity and creation time.
    /// The timeout is raised to the floor.
    pub fn new_at(id: u128, now: i64, name: String, message: String, timeout_ms: u64) -> (worker:
        Self)
        ensures
            worker.metadata@ == TaskRecord::fresh(
                id,
                now as int,
                name@,
                message@,
                floored_timeout(timeout_ms as nat),
            ),
            worker.metadata@.wf(),
    {
        let timeout_ms = if timeout_ms >= MIN_TIMEOUT_MS {
            timeout_ms
        } else {
            MIN_TIMEOUT_MS
        };
        TaskActor {
            metadata: TaskMetadata {
                id,
                name,
                message,
                status: TaskStatus::InProgress,
                started_at: now,
                finished_at: None,
                result: None,
                error: None,
                timeout_ms,
                actual_duration_ms: None,
                cancelled_at: None,
                timeout_at: None,
            },
        }
    }

    /// A worker for a new task, with a random identifier and the current
    /// time as its creation time.
    pub fn new(name: String, message: String, timeout_ms: u64) -> (worker: Self)
        ensures
            worker.metadata@ == TaskRecord::fresh(
                worker.metadata.id,
                worker.metadata.started_at as int,
                name@,
                message@,
                floored_timeout(timeout_ms as nat),
            ),
            worker.metadata@.wf(),
            is_random_uuid(worker.metadata.id),
    {
        let id = fresh_task_id();
        let now = current_time_millis();
        TaskActor::new_at(id, now, name, message, timeout_ms)
    }

    /// Takes one message at time `now`.
    pub fn handle_at(&mut self, msg: WorkerMessage, now: i64) -> (action: WorkerAction)
        ensures
            final(self).metadata@ == step(old(self).metadata@, msg@, now as int),
            action@ == reaction(old(self).metadata@, msg@),
    {
        if self.metadata.status != TaskStatus::InProgress {
            return WorkerAction::Idle;
        }
        match msg {
            WorkerMessage::Start(start) => WorkerAction::ArmTimers {
                work_ms: start.duration_ms,
                completion: CompleteTask { result: "Task completed successfully".to_string() },
                timeout_ms: self.metadata.timeout_ms,
            },
            WorkerMessage::Complete(done) => {
                self.metadata.mark_completed_at(now, done.result);
                WorkerAction::Retire
            },
            WorkerMessage::Error(failure) => {
                self.metadata.mark_error_at(now, failure.error, false);
                WorkerAction::Retire
            },
            WorkerMessage::Cancel(_) => {
                self.metadata.mark_cancelled_at(now);
                WorkerAction::Retire
            },
            WorkerMessage::Timeout(_) => {
                let mut text = "Task timed out after ".to_string();
                let digits = decimal_string(self.metadata.timeout_ms);
                text.append(digits.as_str());
                text.append("ms");
                self.metadata.mark_error_at(now, text, true);
                WorkerAction::Retire
            },
        }
    }

    /// Takes one message at the current time. The record moves as
    /// [`step`] says, at whatever time the clock gave.
    pub fn handle(&mut self, msg: WorkerMessage) -> (action: WorkerAction)
        ensures
            exists|now: int| final(self).metadata@ == #[trigger] step(old(self).metadata@, msg@, now),
            action@ == reaction(old(self).metadata@, msg@),
    {
        let now = current_time_millis();
        self.handle_at(msg, now)
    }

    /// The current snapshot of the task.
    pub fn get_status(&self, _msg: GetTaskStatus) -> (snapshot: TaskMetadata)
        ensures
            snapshot == self.metadata,
    {
        self.metadata.clone()
    }
}

/// Every event leaves a consistent record consistent.
pub proof fn lemma_step_keeps_consistency(r: TaskRecord, event: WorkerEvent, now: int)
    requires
        r.wf(),
    ensures
        step(r, event, now).wf(),
{
}

/// The event that finishes a task leaves the fields of its record coherent,
/// whatever they held before.
pub proof fn lemma_finishing_step_establishes_coherence(
    r: TaskRecord,
    event: WorkerEvent,
    now: int,
)
    requires
        !r.is_terminal(),
        !(event is Start),
    ensures
        step(r, event, now).coherent(),
        r.timeout_ms >= MIN_TIMEOUT_MS ==> step(r, event, now).wf(),
{
}

/// A terminal worker takes nothing any more: no event changes its record,
/// and none makes it ask anything of the runtime.
pub proof fn lemma_terminal_is_absorbing(r: TaskRecord, event: WorkerEvent, now: int)
    requires
        r.is_terminal(),
    ensures
        step(r, event, now) == r,
        reaction(r, event) is Idle,
{
}

/// No event touches what was fixed at creation: identifier, name, message,
/// creation time and timeout.
pub proof fn lemma_step_keeps_identity(r: TaskRecord, event: WorkerEvent, now: int)
    ensures
        step(r, event, now).id == r.id,
        step(r, event, now).name == r.name,
        step(r, event, now).message == r.message,
        step(r, event, now).started_at == r.started_at,
        step(r, event, now).timeout_ms == r.timeout_ms,
{
}

/// A worker retires exactly when a message other than `Start` finds it in
/// progress, and it is terminal from then on.
pub proof fn lemma_retire_is_the_terminal_transition(r: TaskRecord, event: WorkerEvent, now: int)
    ensures
        reaction(r, event) is Retire <==> !r.is_terminal() && !(event is Start),
        reaction(r, event) is Retire ==> step(r, event, now).is_terminal(),
        !(reaction(r, event) is Retire) ==> step(r, event, now) == r,
{
}

/// Once a worker is terminal, no run of events, however long and in
/// whatever order, changes its record.
pub proof fn lemma_run_after_terminal(r: TaskRecord, events: Seq<(WorkerEvent, int)>)
    requires
        r.is_terminal(),
    ensures
        run(r, events) == r,
    decreases events.len(),
{
    if events.len() > 0 {
        lemma_run_after_terminal(r, events.drop_first());
    }
}

/// Of the events that compete to finish a task, the first one taken wins:
/// whatever follows it leaves the record as the first one made it.
pub proof fn lemma_first_finish_wins(
    r: TaskRecord,
    first: WorkerEvent,
    at: int,
    later: Seq<(WorkerEvent, int)>,
)
    requires
        !r.is_terminal(),
        !(first is Start),
    ensures
        run(r, seq![(first, at)] + later) == step(r, first, at),
        step(r, first, at).is_terminal(),
{
    let all = seq![(first, at)] + later;
    assert(all.drop_first() =~= later);
    lemma_run_after_terminal(step(r, first, at), later);
}

/// No run of events touches what was fixed at creation.
pub proof fn lemma_run_keeps_identity(r: TaskRecord, events: Seq<(WorkerEvent, int)>)
    ensures
        run(r, events).id == r.id,
        run(r, events).name == r.name,
        run(r, events).message == r.message,
        run(r, events).started_at == r.started_at,
        run(r, events).timeout_ms == r.timeout_ms,
    decreases events.len(),
{
    if events.len() > 0 {
        lemma_run_keeps_identity(step(r, events[0].0, events[0].1), events.drop_first());
    }
}

/// A run of events leaves a consistent record consistent.
pub proof fn lemma_run_keeps_consistency(r: TaskRecord, events: Seq<(WorkerEvent, int)>)
    requires
        r.wf(),
    ensures
        run(r, events).wf(),
    decreases events.len(),
{
    if events.len() > 0 {
        lemma_run_keeps_consistency(step(r, events[0].0, events[0].1), events.drop_first());
    }
}

} // verus!

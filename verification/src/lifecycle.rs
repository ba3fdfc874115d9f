//! The course of a task from its creation to its row in the registry, for
//! the ways in which a task can go: what the plan of the manager, the state
//! machine of the worker and the reconciliation give together.
//!
//! How long the runtime takes to hand an event to the worker is not decided
//! here. It enters each statement as a latency, of which only what is said is
//! assumed.

use vstd::prelude::*;
use crate::binary32;
use crate::kind::{ErrorType, TaskType};
use crate::manager::{
    immediate_failure_text, launch_plan, lemma_final_snapshot_is_taken, random_failure_text,
    LaunchSpec, Registry, RECONCILE_GRACE_MS,
};
use crate::record::TaskRecord;
use crate::worker::{
    lemma_first_finish_wins, reaction, run, step, success_text, timeout_text, WorkerEvent,
    WorkerReaction,
};

verus! {

/// The events of a task that is started and whose work comes to its end
/// first: the start at `start_at`, the completion `latency` milliseconds
/// after the work was due, and whatever follows.
pub open spec fn completing_run(
    created: TaskRecord,
    work_ms: nat,
    start_at: int,
    latency: int,
    later: Seq<(WorkerEvent, int)>,
) -> Seq<(WorkerEvent, int)> {
    seq![
        (WorkerEvent::Start { duration_ms: work_ms }, start_at),
        (WorkerEvent::Complete { result: success_text() }, created.started_at + work_ms + latency),
    ] + later
}

/// The events of a task that is started and whose timeout elapses first: the
/// start at `start_at`, the timeout `latency` milliseconds after it was due,
/// and whatever follows.
pub open spec fn timing_out_run(
    created: TaskRecord,
    work_ms: nat,
    start_at: int,
    latency: int,
    later: Seq<(WorkerEvent, int)>,
) -> Seq<(WorkerEvent, int)> {
    seq![
        (WorkerEvent::Start { duration_ms: work_ms }, start_at),
        (WorkerEvent::Timeout, created.started_at + created.timeout_ms + latency),
    ] + later
}

/// The events of a task that fails at once: the failure `latency`
/// milliseconds after creation, and whatever follows.
pub open spec fn failing_run(
    created: TaskRecord,
    error: Seq<char>,
    latency: int,
    later: Seq<(WorkerEvent, int)>,
) -> Seq<(WorkerEvent, int)> {
    seq![(WorkerEvent::Fail { error }, created.started_at + latency)] + later
}

/// A task fails at once exactly when its kind calls for an immediate
/// failure, or it is a custom task whose draw calls for a failure. A task of
/// the first sort carries the text of the immediate failure, one of the
/// second that of the random failure. A custom task with a failure rate of
/// one is of the second sort on every draw from the unit interval.
pub proof fn lemma_tasks_that_fail_at_once(kind: TaskType, draw: u32)
    ensures
        launch_plan(kind, draw) is Fail <==> kind.failure(draw) == Some(ErrorType::Immediate) || (
        kind is Custom && kind.failure(draw) == Some(ErrorType::Random)),
        kind matches TaskType::Error { error_type: ErrorType::Immediate, .. } ==> launch_plan(
            kind,
            draw,
        ) == (LaunchSpec::Fail { error: immediate_failure_text() }),
        kind matches TaskType::Custom { failure_rate: Some(rate), .. } && rate == binary32::ONE
            && binary32::in_unit_interval(draw) ==> launch_plan(kind, draw) == (LaunchSpec::Fail {
            error: random_failure_text(),
        }),
        kind is Quick || kind is Long ==> launch_plan(kind, draw) is Start,
{
}

/// A task that fails at once ends in `Error` with the text of its plan, no
/// result and neither mark, whatever events follow. Its duration is the
/// latency of the failure, so that it has failed before its timeout elapsed
/// wherever that latency is below the timeout. No timer is armed for it. Its
/// record becomes its row when it is reported to a registry that holds the
/// handle of its worker.
pub proof fn lemma_task_that_fails_at_once(
    r: Registry,
    kind: TaskType,
    draw: u32,
    created: TaskRecord,
    latency: int,
    later: Seq<(WorkerEvent, int)>,
)
    requires
        created.wf(),
        !created.is_terminal(),
        launch_plan(kind, draw) is Fail,
        0 <= latency,
    ensures
        ({
            let error = launch_plan(kind, draw)->Fail_error;
            let end = run(created, failing_run(created, error, latency, later));
            &&& reaction(created, WorkerEvent::Fail { error }) is Retire
            &&& end.status is Error
            &&& end.error == Some(error)
            &&& end.result is None
            &&& end.timeout_at is None
            &&& end.cancelled_at is None
            &&& end.finished_at == Some(created.started_at + latency)
            &&& end.actual_duration_ms == Some(latency as nat)
            &&& (latency < created.timeout_ms ==> end.finished_at.unwrap() - end.started_at
                < end.timeout_ms)
            &&& end.wf()
            &&& (r.live.contains(created.id) ==> r.reconciled(created.id, end).rows[created.id]
                == end)
        }),
{
    let error = launch_plan(kind, draw)->Fail_error;
    let first = WorkerEvent::Fail { error };
    let events = failing_run(created, error, latency, later);
    lemma_first_finish_wins(created, first, created.started_at + latency, later);
    assert(run(created, events) == step(created, first, created.started_at + latency));
    if r.live.contains(created.id) {
        lemma_final_snapshot_is_taken(r, created, events);
    }
}

/// A task that is started arms its two timers with the work of its plan and
/// its own timeout. Where the completion is the first event to finish it,
/// it ends in `Completed` with the fixed result and no error, whatever
/// events follow, the timeout among them. Its duration is the work of its
/// plan and the latency of the completion. Its record becomes its row when
/// it is reported to a registry that holds the handle of its worker.
pub proof fn lemma_task_that_completes(
    r: Registry,
    kind: TaskType,
    draw: u32,
    created: TaskRecord,
    start_at: int,
    latency: int,
    later: Seq<(WorkerEvent, int)>,
)
    requires
        created.wf(),
        !created.is_terminal(),
        launch_plan(kind, draw) is Start,
        0 <= latency,
    ensures
        ({
            let work_ms = launch_plan(kind, draw)->Start_work_ms;
            let end = run(created, completing_run(created, work_ms, start_at, latency, later));
            &&& reaction(created, WorkerEvent::Start { duration_ms: work_ms })
                == (WorkerReaction::ArmTimers {
                work_ms,
                completion: success_text(),
                timeout_ms: created.timeout_ms,
            })
            &&& work_ms == kind.work_duration()
            &&& end.status is Completed
            &&& end.result == Some(success_text())
            &&& end.error is None
            &&& end.timeout_at is None
            &&& end.cancelled_at is None
            &&& end.finished_at == Some(created.started_at + work_ms + latency)
            &&& end.actual_duration_ms == Some((work_ms + latency) as nat)
            &&& end.actual_duration_ms.unwrap() == end.finished_at.unwrap() - end.started_at
            &&& end.wf()
            &&& (r.live.contains(created.id) ==> r.reconciled(created.id, end).rows[created.id]
                == end)
        }),
{
    let work_ms = launch_plan(kind, draw)->Start_work_ms;
    let start = WorkerEvent::Start { duration_ms: work_ms };
    let done = WorkerEvent::Complete { result: success_text() };
    let at = created.started_at + work_ms + latency;
    let events = completing_run(created, work_ms, start_at, latency, later);
    assert(events.drop_first() =~= seq![(done, at)] + later);
    assert(step(created, start, start_at) == created);
    lemma_first_finish_wins(created, done, at, later);
    assert(run(created, events) == step(created, done, at));
    if r.live.contains(created.id) {
        lemma_final_snapshot_is_taken(r, created, events);
    }
}

/// A quick task that asks for no timeout runs under a timeout of 2000 ms and
/// works for 1500 ms. Where its completion is the first event to finish it
/// and comes no later than twice the grace period after the work was due,
/// its duration lies within the grace period around the timeout.
pub proof fn lemma_quick_task_duration(
    draw: u32,
    created: TaskRecord,
    start_at: int,
    latency: int,
    later: Seq<(WorkerEvent, int)>,
)
    requires
        created.wf(),
        !created.is_terminal(),
        0 <= latency <= 2 * RECONCILE_GRACE_MS,
    ensures
        ({
            let kind = TaskType::Quick { timeout_ms: None };
            let end = run(created, completing_run(created, 1500, start_at, latency, later));
            &&& kind.effective_timeout() == 2000
            &&& launch_plan(kind, draw) == (LaunchSpec::Start { work_ms: 1500, probe_after_ms: 2500 })
            &&& end.status is Completed
            &&& end.result is Some
            &&& end.actual_duration_ms == Some((1500 + latency) as nat)
            &&& 2000 - RECONCILE_GRACE_MS <= end.actual_duration_ms.unwrap() <= 2000
                + RECONCILE_GRACE_MS
        }),
{
    let kind = TaskType::Quick { timeout_ms: None };
    lemma_task_that_completes(Registry::empty(), kind, draw, created, start_at, latency, later);
}

/// A task whose timeout is the first event to finish it ends in `Error` with
/// the timeout text and the timeout mark and no result, whatever events
/// follow, the completion among them. Its duration is its timeout and the
/// latency of the timeout event.
pub proof fn lemma_task_that_times_out(
    r: Registry,
    created: TaskRecord,
    work_ms: nat,
    start_at: int,
    latency: int,
    later: Seq<(WorkerEvent, int)>,
)
    requires
        created.wf(),
        !created.is_terminal(),
        0 <= latency,
    ensures
        ({
            let end = run(created, timing_out_run(created, work_ms, start_at, latency, later));
            &&& end.status is Error
            &&& end.error == Some(timeout_text(created.timeout_ms))
            &&& end.result is None
            &&& end.timeout_at == end.finished_at
            &&& end.cancelled_at is None
            &&& end.finished_at == Some(created.started_at + created.timeout_ms + latency)
            &&& end.actual_duration_ms == Some((created.timeout_ms + latency) as nat)
            &&& end.wf()
            &&& (r.live.contains(created.id) ==> r.reconciled(created.id, end).rows[created.id]
                == end)
        }),
{
    let start = WorkerEvent::Start { duration_ms: work_ms };
    let at = created.started_at + created.timeout_ms + latency;
    let events = timing_out_run(created, work_ms, start_at, latency, later);
    assert(events.drop_first() =~= seq![(WorkerEvent::Timeout, at)] + later);
    assert(step(created, start, start_at) == created);
    lemma_first_finish_wins(created, WorkerEvent::Timeout, at, later);
    assert(run(created, events) == step(created, WorkerEvent::Timeout, at));
    if r.live.contains(created.id) {
        lemma_final_snapshot_is_taken(r, created, events);
    }
}

} // verus!

//! The task record: the externally visible snapshot of one task, its
//! mathematical model, and the transitions that finish it.
//!
//! Timestamps are whole milliseconds since the Unix epoch (UTC). Identifiers
//! are UUIDs held as the 128-bit integer of their bytes.

use vstd::prelude::*;
use crate::environment::current_time_millis;

verus! {

/// Lifecycle state of a task. `InProgress` is the initial state; `Completed`
/// and `Error` are terminal.
#[derive(Debug, Clone, Copy, PartialEq, Eq, Structural)]
pub enum TaskStatus {
    InProgress,
    Completed,
    Error,
}

/// Smallest timeout, in milliseconds, that a task can run under.
pub const MIN_TIMEOUT_MS: u64 = 100;

/// Milliseconds from `started_at` to `finished_at`, zero where the clock
/// stepped backwards in between.
pub open spec fn elapsed_ms(started_at: int, finished_at: int) -> nat {
    if finished_at > started_at {
        (finished_at - started_at) as nat
    } else {
        0
    }
}

/// The error text of a cancelled task.
pub open spec fn cancelled_text() -> Seq<char> {
    "Task was cancelled"@
}

/// Mathematical model of a task record: what a [`TaskMetadata`] holds, with
/// strings as sequences of characters and numbers unbounded.
pub struct TaskRecord {
    pub id: u128,
    pub name: Seq<char>,
    pub message: Seq<char>,
    pub status: TaskStatus,
    pub started_at: int,
    pub finished_at: Option<int>,
    pub result: Option<Seq<char>>,
    pub error: Option<Seq<char>>,
    pub timeout_ms: nat,
    pub actual_duration_ms: Option<nat>,
    pub cancelled_at: Option<int>,
    pub timeout_at: Option<int>,
}

impl TaskRecord {
    /// The record of a task that has just been created.
    pub open spec fn fresh(
        id: u128,
        started_at: int,
        name: Seq<char>,
        message: Seq<char>,
        timeout_ms: nat,
    ) -> TaskRecord {
        TaskRecord {
            id,
            name,
            message,
            status: TaskStatus::InProgress,
            started_at,
            finished_at: None,
            result: None,
            error: None,
            timeout_ms,
            actual_duration_ms: None,
            cancelled_at: None,
            timeout_at: None,
        }
    }

    /// Whether the task has reached `Completed` or `Error`.
    pub open spec fn is_terminal(self) -> bool {
        !(self.status is InProgress)
    }

    /// The coherence of the fields of a record:
    /// a task is in progress exactly while it has no finish time; a result
    /// goes with `Completed` and an error text with `Error`, exactly, so that
    /// the two are never both set; the cancellation and timeout marks exclude
    /// each other, belong to `Error` and repeat the finish time; and the
    /// duration is set exactly when the task has finished, to the clamped
    /// difference of the two timestamps.
    pub open spec fn coherent(self) -> bool {
        &&& (self.status is InProgress <==> self.finished_at is None)
        &&& (self.result is Some <==> self.status is Completed)
        &&& (self.error is Some <==> self.status is Error)
        &&& (self.cancelled_at is Some ==> self.status is Error && self.cancelled_at
            == self.finished_at)
        &&& (self.timeout_at is Some ==> self.status is Error && self.timeout_at
            == self.finished_at)
        &&& !(self.cancelled_at is Some && self.timeout_at is Some)
        &&& self.actual_duration_ms == match self.finished_at {
            Some(finished_at) => Some(elapsed_ms(self.started_at, finished_at)),
            None => None,
        }
    }

    /// The consistency that every record made and changed by this library
    /// has: its fields are coherent, and its timeout respects the floor.
    pub open spec fn wf(self) -> bool {
        &&& self.coherent()
        &&& self.timeout_ms >= MIN_TIMEOUT_MS
    }

    /// The record with its duration computed anew from the two timestamps;
    /// unchanged while the task has not finished.
    pub open spec fn with_duration(self) -> TaskRecord {
        match self.finished_at {
            Some(finished_at) => TaskRecord {
                actual_duration_ms: Some(elapsed_ms(self.started_at, finished_at)),
                ..self
            },
            None => self,
        }
    }

    /// Completion at time `now` with the given result; no change once the
    /// task is terminal. The record carries the result and nothing of a
    /// failure afterwards.
    pub open spec fn completed(self, now: int, result: Seq<char>) -> TaskRecord {
        if self.status is InProgress {
            TaskRecord {
                status: TaskStatus::Completed,
                finished_at: Some(now),
                result: Some(result),
                error: None,
                cancelled_at: None,
                timeout_at: None,
                actual_duration_ms: Some(elapsed_ms(self.started_at, now)),
                ..self
            }
        } else {
            self
        }
    }

    /// Failure at time `now` with the given error text, marked as a timeout
    /// where `is_timeout` holds; no change once the task is terminal. The
    /// record carries the error text and no result afterwards, and no mark
    /// but that of the timeout.
    pub open spec fn failed(self, now: int, error: Seq<char>, is_timeout: bool) -> TaskRecord {
        if self.status is InProgress {
            TaskRecord {
                status: TaskStatus::Error,
                finished_at: Some(now),
                result: None,
                error: Some(error),
                cancelled_at: None,
                timeout_at: if is_timeout {
                    Some(now)
                } else {
                    None
                },
                actual_duration_ms: Some(elapsed_ms(self.started_at, now)),
                ..self
            }
        } else {
            self
        }
    }

    /// Cancellation at time `now`; no change once the task is terminal. The
    /// record carries the cancellation text and mark afterwards, and neither a
    /// result nor the mark of a timeout.
    pub open spec fn cancelled(self, now: int) -> TaskRecord {
        if self.status is InProgress {
            TaskRecord {
                status: TaskStatus::Error,
                finished_at: Some(now),
                result: None,
                error: Some(cancelled_text()),
                cancelled_at: Some(now),
                timeout_at: None,
                actual_duration_ms: Some(elapsed_ms(self.started_at, now)),
                ..self
            }
        } else {
            self
        }
    }
}

/// The snapshot of one task as callers see it.
#[derive(Debug)]
pub struct TaskMetadata {
    /// Identifier, assigned at creation.
    pub id: u128,
    pub name: String,
    pub message: String,
    pub status: TaskStatus,
    /// Creation time.
    pub started_at: i64,
    /// Time of the terminal transition, absent while the task is in progress.
    pub finished_at: Option<i64>,
    /// Set when the task completed.
    pub result: Option<String>,
    /// Set when the task ended in `Error`.
    pub error: Option<String>,
    /// Effective timeout in milliseconds.
    pub timeout_ms: u64,
    /// Milliseconds from start to finish, never negative.
    pub actual_duration_ms: Option<u64>,
    /// Set when the task was cancelled.
    pub cancelled_at: Option<i64>,
    /// Set when the task timed out.
    pub timeout_at: Option<i64>,
}

/// View of an optional timestamp.
pub open spec fn instant_view(t: Option<i64>) -> Option<int> {
    match t {
        Some(t) => Some(t as int),
        None => None,
    }
}

/// View of an optional text.
pub open spec fn text_view(s: Option<String>) -> Option<Seq<char>> {
    match s {
        Some(s) => Some(s@),
        None => None,
    }
}

impl View for TaskMetadata {
    type V = TaskRecord;

    open spec fn view(&self) -> TaskRecord {
        TaskRecord {
            id: self.id,
            name: self.name@,
            message: self.message@,
            status: self.status,
            started_at: self.started_at as int,
            finished_at: instant_view(self.finished_at),
            result: text_view(self.result),
            error: text_view(self.error),
            timeout_ms: self.timeout_ms as nat,
            actual_duration_ms: match self.actual_duration_ms {
                Some(d) => Some(d as nat),
                None => None,
            },
            cancelled_at: instant_view(self.cancelled_at),
            timeout_at: instant_view(self.timeout_at),
        }
    }
}

impl Clone for TaskMetadata {
    fn clone(&self) -> (copy: Self)
        ensures
            copy == *self,
    {
        TaskMetadata {
            id: self.id,
            name: self.name.clone(),
            message: self.message.clone(),
            status: self.status,
            started_at: self.started_at,
            finished_at: self.finished_at,
            result: match &self.result {
                Some(s) => Some(s.clone()),
                None => None,
            },
            error: match &self.error {
                Some(s) => Some(s.clone()),
                None => None,
            },
            timeout_ms: self.timeout_ms,
            actual_duration_ms: self.actual_duration_ms,
            cancelled_at: self.cancelled_at,
            timeout_at: self.timeout_at,
        }
    }
}

/// Milliseconds from `started_at` to `finished_at`, clamped at zero. The
/// difference of two `i64` values always fits in a `u64`.
pub fn elapsed_between(started_at: i64, finished_at: i64) -> (d: u64)
    ensures
        d == elapsed_ms(started_at as int, finished_at as int),
{
    if finished_at > started_at {
        let wide: i128 = finished_at as i128 - started_at as i128;
        wide as u64
    } else {
        0
    }
}

impl TaskMetadata {
    /// Whether the record is consistent, as [`TaskRecord::wf`] defines it.
    pub fn is_consistent(&self) -> (ok: bool)
        ensures
            ok == self@.wf(),
    {
        let in_progress = self.status == TaskStatus::InProgress;
        let is_error = self.status == TaskStatus::Error;
        let duration_ok = match self.finished_at {
            Some(finished_at) => match self.actual_duration_ms {
                Some(d) => d == elapsed_between(self.started_at, finished_at),
                None => false,
            },
            None => self.actual_duration_ms.is_none(),
        };
        let cancel_ok = match self.cancelled_at {
            Some(at) => is_error && self.timeout_at.is_none() && match self.finished_at {
                Some(finished_at) => at == finished_at,
                None => false,
            },
            None => true,
        };
        let timeout_ok = match self.timeout_at {
            Some(at) => is_error && match self.finished_at {
                Some(finished_at) => at == finished_at,
                None => false,
            },
            None => true,
        };
        in_progress == self.finished_at.is_none() && self.result.is_some() == (self.status
            == TaskStatus::Completed) && self.error.is_some() == is_error && cancel_ok
            && timeout_ok && duration_ok && self.timeout_ms >= MIN_TIMEOUT_MS
    }

    /// Sets the duration from the two timestamps once the task has finished.
    pub fn calculate_duration(&mut self)
        ensures
            final(self)@ == old(self)@.with_duration(),
    {
        if let Some(finished_at) = self.finished_at {
            self.actual_duration_ms = Some(elapsed_between(self.started_at, finished_at));
        }
    }

    /// Completes the task at time `now`, unless it is already terminal.
    pub fn mark_completed_at(&mut self, now: i64, result: String)
        ensures
            final(self)@ == old(self)@.completed(now as int, result@),
    {
        if self.status == TaskStatus::InProgress {
            self.status = TaskStatus::Completed;
            self.finished_at = Some(now);
            self.result = Some(result);
            self.error = None;
            self.cancelled_at = None;
            self.timeout_at = None;
            self.calculate_duration();
        }
    }

    /// Fails the task at time `now`, unless it is already terminal.
    pub fn mark_error_at(&mut self, now: i64, error: String, is_timeout: bool)
        ensures
            final(self)@ == old(self)@.failed(now as int, error@, is_timeout),
    {
        if self.status == TaskStatus::InProgress {
            self.status = TaskStatus::Error;
            self.finished_at = Some(now);
            self.result = None;
            self.error = Some(error);
            self.cancelled_at = None;
            self.timeout_at = if is_timeout {
                Some(now)
            } else {
                None
            };
            self.calculate_duration();
        }
    }

    /// Cancels the task at time `now`, unless it is already terminal.
    pub fn mark_cancelled_at(&mut self, now: i64)
        ensures
            final(self)@ == old(self)@.cancelled(now as int),
    {
        if self.status == TaskStatus::InProgress {
            self.status = TaskStatus::Error;
            self.finished_at = Some(now);
            self.result = None;
            self.error = Some("Task was cancelled".to_string());
            self.cancelled_at = Some(now);
            self.timeout_at = None;
            self.calculate_duration();
        }
    }

    /// Completes the task at the current time, unless it is already
    /// terminal. The finish time is whatever the clock gave.
    pub fn mark_completed(&mut self, result: String)
        ensures
            old(self)@.is_terminal() ==> final(self)@ == old(self)@,
            !old(self)@.is_terminal() ==> final(self).finished_at is Some && final(self)@ == old(
                self,
            )@.completed(final(self).finished_at.unwrap() as int, result@),
    {
        let now = current_time_millis();
        self.mark_completed_at(now, result);
    }

    /// Fails the task at the current time, unless it is already terminal.
    /// The finish time is whatever the clock gave.
    pub fn mark_error(&mut self, error: String, is_timeout: bool)
        ensures
            old(self)@.is_terminal() ==> final(self)@ == old(self)@,
            !old(self)@.is_terminal() ==> final(self).finished_at is Some && final(self)@ == old(
                self,
            )@.failed(final(self).finished_at.unwrap() as int, error@, is_timeout),
    {
        let now = current_time_millis();
        self.mark_error_at(now, error, is_timeout);
    }

    /// Cancels the task at the current time, unless it is already terminal.
    /// The finish time is whatever the clock gave.
    pub fn mark_cancelled(&mut self)
        ensures
            old(self)@.is_terminal() ==> final(self)@ == old(self)@,
            !old(self)@.is_terminal() ==> final(self).finished_at is Some && final(self)@ == old(
                self,
            )@.cancelled(final(self).finished_at.unwrap() as int),
    {
        let now = current_time_millis();
        self.mark_cancelled_at(now);
    }

    /// Whether the task ended by cancellation.
    pub fn was_cancelled(&self) -> (b: bool)
        ensures
            b == self@.cancelled_at is Some,
    {
        self.cancelled_at.is_some()
    }

    /// Whether the task ended by timeout.
    pub fn was_timeout(&self) -> (b: bool)
        ensures
            b == self@.timeout_at is Some,
    {
        self.timeout_at.is_some()
    }
}

/// A freshly created record is consistent and in progress, provided its
/// timeout respects the floor.
pub proof fn lemma_fresh_record_is_consistent(
    id: u128,
    started_at: int,
    name: Seq<char>,
    message: Seq<char>,
    timeout_ms: nat,
)
    requires
        timeout_ms >= MIN_TIMEOUT_MS,
    ensures
        TaskRecord::fresh(id, started_at, name, message, timeout_ms).wf(),
        !TaskRecord::fresh(id, started_at, name, message, timeout_ms).is_terminal(),
{
}

/// Every transition keeps a consistent record consistent, whatever the time
/// and the texts.
pub proof fn lemma_transitions_keep_consistency(
    r: TaskRecord,
    now: int,
    text: Seq<char>,
    is_timeout: bool,
)
    requires
        r.wf(),
    ensures
        r.completed(now, text).wf(),
        r.failed(now, text, is_timeout).wf(),
        r.cancelled(now).wf(),
        r.with_duration() == r,
{
}

/// A transition out of `InProgress` leaves the fields of the record
/// coherent, whatever they held before: in particular the record then has a
/// finish time, not both a result and an error, and not both marks.
pub proof fn lemma_transitions_establish_coherence(
    r: TaskRecord,
    now: int,
    text: Seq<char>,
    is_timeout: bool,
)
    requires
        !r.is_terminal(),
    ensures
        r.completed(now, text).coherent(),
        r.failed(now, text, is_timeout).coherent(),
        r.cancelled(now).coherent(),
        r.timeout_ms >= MIN_TIMEOUT_MS ==> r.completed(now, text).wf() && r.failed(
            now,
            text,
            is_timeout,
        ).wf() && r.cancelled(now).wf(),
{
}

/// A consistent record is in progress exactly while it has no finish time.
pub proof fn lemma_in_progress_iff_unfinished(r: TaskRecord)
    requires
        r.wf(),
    ensures
        r.status is InProgress <==> r.finished_at is None,
{
}

/// Once a record is terminal no transition changes it: its finish time,
/// result and error stay, and so does every other field.
pub proof fn lemma_terminal_record_is_final(
    r: TaskRecord,
    now: int,
    text: Seq<char>,
    is_timeout: bool,
)
    requires
        r.is_terminal(),
    ensures
        r.completed(now, text) == r,
        r.failed(now, text, is_timeout) == r,
        r.cancelled(now) == r,
{
}

/// A transition out of `InProgress` always ends in a terminal state, so a
/// second transition finds nothing left to change.
pub proof fn lemma_first_transition_wins(
    r: TaskRecord,
    now: int,
    text: Seq<char>,
    is_timeout: bool,
)
    ensures
        r.completed(now, text).is_terminal(),
        r.failed(now, text, is_timeout).is_terminal(),
        r.cancelled(now).is_terminal(),
{
}

/// Where a consistent record has a duration, the task has finished and the
/// duration is the difference of finish and start time, clamped at zero: the
/// exact difference unless the clock stepped backwards in between.
pub proof fn lemma_duration_is_clamped_difference(r: TaskRecord)
    requires
        r.wf(),
        r.actual_duration_ms is Some,
    ensures
        r.finished_at is Some,
        r.actual_duration_ms.unwrap() >= 0,
        r.actual_duration_ms.unwrap() == elapsed_ms(r.started_at, r.finished_at.unwrap()),
        r.finished_at.unwrap() >= r.started_at ==> r.actual_duration_ms.unwrap()
            == r.finished_at.unwrap() - r.started_at,
        r.finished_at.unwrap() < r.started_at ==> r.actual_duration_ms.unwrap() == 0,
{
}

} // verus!

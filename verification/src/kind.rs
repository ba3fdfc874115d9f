//! Task kinds: what a caller asks for, and what it means for the timeout, the
//! name, the simulated work and the outcome of a task.

use vstd::prelude::*;
use vstd::string::*;
use crate::binary32;
use crate::record::MIN_TIMEOUT_MS;

verus! {

/// Timeout of a `Quick` task that asks for none, in milliseconds.
pub const QUICK_TIMEOUT_MS: u64 = 2000;

/// Timeout of a `Long` task that asks for none, in milliseconds.
pub const LONG_TIMEOUT_MS: u64 = 10000;

/// Timeout of an `Error` task that asks for none, in milliseconds.
pub const ERROR_TIMEOUT_MS: u64 = 5000;

/// How far the work of a task that is meant to time out outlasts its
/// timeout, in milliseconds.
pub const TIMEOUT_OVERRUN_MS: u64 = 1000;

/// The way in which an `Error` task is meant to go wrong.
#[derive(Debug, Clone, Copy, PartialEq, Eq, Structural)]
pub enum ErrorType {
    /// Fails right after creation.
    Immediate,
    /// Works past its timeout.
    Timeout,
    /// Failure decided by a random draw.
    Random,
    /// Stands for a failing network.
    NetworkError,
    /// Stands for rejected input.
    ValidationError,
}

/// The kind of a task.
#[derive(Debug)]
#[allow(inconsistent_fields)]
pub enum TaskType {
    Quick { timeout_ms: Option<u64> },
    Long { timeout_ms: Option<u64> },
    Error { timeout_ms: Option<u64>, error_type: ErrorType },
    Custom {
        name: String,
        timeout_ms: u64,
        /// Probability of failure, as the bits of its single-precision
        /// encoding (see [`binary32`]).
        failure_rate: Option<u32>,
    },
}

impl Clone for TaskType {
    fn clone(&self) -> (copy: Self)
        ensures
            copy == *self,
    {
        match self {
            TaskType::Quick { timeout_ms } => TaskType::Quick { timeout_ms: *timeout_ms },
            TaskType::Long { timeout_ms } => TaskType::Long { timeout_ms: *timeout_ms },
            TaskType::Error { timeout_ms, error_type } => TaskType::Error {
                timeout_ms: *timeout_ms,
                error_type: *error_type,
            },
            TaskType::Custom { name, timeout_ms, failure_rate } => TaskType::Custom {
                name: name.clone(),
                timeout_ms: *timeout_ms,
                failure_rate: *failure_rate,
            },
        }
    }
}

impl ErrorType {
    /// The name of the variant, as written in the source.
    pub open spec fn name(self) -> Seq<char> {
        match self {
            ErrorType::Immediate => "Immediate"@,
            ErrorType::Timeout => "Timeout"@,
            ErrorType::Random => "Random"@,
            ErrorType::NetworkError => "NetworkError"@,
            ErrorType::ValidationError => "ValidationError"@,
        }
    }

    /// The name of the variant.
    pub fn variant_name(&self) -> (s: &'static str)
        ensures
            s@ == self.name(),
    {
        match self {
            ErrorType::Immediate => "Immediate",
            ErrorType::Timeout => "Timeout",
            ErrorType::Random => "Random",
            ErrorType::NetworkError => "NetworkError",
            ErrorType::ValidationError => "ValidationError",
        }
    }
}

/// `x` or the fallback where `x` is absent.
pub open spec fn or_default(x: Option<u64>, fallback: u64) -> nat {
    match x {
        Some(v) => v as nat,
        None => fallback as nat,
    }
}

/// Three quarters of `t`, rounded down.
fn three_quarters(t: u64) -> (r: u64)
    ensures
        r == t * 3 / 4,
{
    t / 4 * 3 + (t % 4) * 3 / 4
}

/// Eight tenths of `t`, rounded down.
fn eight_tenths(t: u64) -> (r: u64)
    ensures
        r == t * 8 / 10,
{
    t / 10 * 8 + (t % 10) * 8 / 10
}

impl TaskType {
    /// The timeout that the kind asks for: its own, or the default of the
    /// kind.
    pub open spec fn requested_timeout(self) -> nat {
        match self {
            TaskType::Quick { timeout_ms } => or_default(timeout_ms, QUICK_TIMEOUT_MS),
            TaskType::Long { timeout_ms } => or_default(timeout_ms, LONG_TIMEOUT_MS),
            TaskType::Error { timeout_ms, .. } => or_default(timeout_ms, ERROR_TIMEOUT_MS),
            TaskType::Custom { timeout_ms, .. } => timeout_ms as nat,
        }
    }

    /// The timeout that applies: the requested one, raised to the floor.
    pub open spec fn effective_timeout(self) -> nat {
        if self.requested_timeout() >= MIN_TIMEOUT_MS {
            self.requested_timeout()
        } else {
            MIN_TIMEOUT_MS as nat
        }
    }

    /// The name that a task of this kind gets where the caller gives none.
    pub open spec fn default_name(self) -> Seq<char> {
        match self {
            TaskType::Quick { .. } => "Quick Task"@,
            TaskType::Long { .. } => "Long Task"@,
            TaskType::Error { error_type, .. } => "Error Task ("@ + error_type.name() + ")"@,
            TaskType::Custom { name, .. } => name@,
        }
    }

    /// The failure that the kind calls for, given a random draw from the
    /// half-open unit interval: the failure mode of an `Error` task;
    /// `Random` for a `Custom` task whose draw falls below its failure rate;
    /// none otherwise.
    pub open spec fn failure(self, draw: u32) -> Option<ErrorType> {
        match self {
            TaskType::Error { error_type, .. } => Some(error_type),
            TaskType::Custom { failure_rate: Some(rate), .. } => if binary32::less_than(
                draw,
                rate,
            ) {
                Some(ErrorType::Random)
            } else {
                None
            },
            _ => None,
        }
    }

    /// How long the simulated work takes, in milliseconds: a fixed share of
    /// the effective timeout, or, for a task that is meant to time out, the
    /// timeout and an overrun (as far as 64 bits reach).
    pub open spec fn work_duration(self) -> nat {
        let t = self.effective_timeout();
        match self {
            TaskType::Quick { .. } => t * 3 / 4,
            TaskType::Long { .. } => t * 8 / 10,
            TaskType::Error { error_type: ErrorType::Timeout, .. } => if t + TIMEOUT_OVERRUN_MS
                <= u64::MAX {
                t + TIMEOUT_OVERRUN_MS as nat
            } else {
                u64::MAX as nat
            },
            TaskType::Error { error_type: ErrorType::Random, .. } => t / 2,
            TaskType::Error { .. } => t / 3,
            TaskType::Custom { .. } => t * 3 / 4,
        }
    }

    /// Whether the simulated work is meant to outlast the timeout.
    pub open spec fn meant_to_time_out(self) -> bool {
        self matches TaskType::Error { error_type: ErrorType::Timeout, .. }
    }

    /// The effective timeout in milliseconds: the requested timeout or the
    /// default of the kind, never below the floor.
    pub fn get_timeout(&self) -> (ms: u64)
        ensures
            ms == self.effective_timeout(),
            ms >= MIN_TIMEOUT_MS,
    {
        let requested = match self {
            TaskType::Quick { timeout_ms } => match timeout_ms {
                Some(ms) => *ms,
                None => QUICK_TIMEOUT_MS,
            },
            TaskType::Long { timeout_ms } => match timeout_ms {
                Some(ms) => *ms,
                None => LONG_TIMEOUT_MS,
            },
            TaskType::Error { timeout_ms, .. } => match timeout_ms {
                Some(ms) => *ms,
                None => ERROR_TIMEOUT_MS,
            },
            TaskType::Custom { timeout_ms, .. } => *timeout_ms,
        };
        if requested >= MIN_TIMEOUT_MS {
            requested
        } else {
            MIN_TIMEOUT_MS
        }
    }

    /// The name for a task of this kind that was given none.
    pub fn get_name(&self) -> (name: String)
        ensures
            name@ == self.default_name(),
    {
        match self {
            TaskType::Quick { .. } => "Quick Task".to_string(),
            TaskType::Long { .. } => "Long Task".to_string(),
            TaskType::Error { error_type, .. } => {
                let mut name = "Error Task (".to_string();
                name.append(error_type.variant_name());
                name.append(")");
                name
            },
            TaskType::Custom { name, .. } => name.clone(),
        }
    }

    /// The failure that the kind calls for, given one random draw from the
    /// half-open unit interval, encoded like the failure rate.
    pub fn should_fail(&self, draw: u32) -> (failure: Option<ErrorType>)
        ensures
            failure == self.failure(draw),
    {
        match self {
            TaskType::Error { error_type, .. } => Some(*error_type),
            TaskType::Custom { failure_rate, .. } => match failure_rate {
                Some(rate) => if binary32::lt(draw, *rate) {
                    Some(ErrorType::Random)
                } else {
                    None
                },
                None => None,
            },
            _ => None,
        }
    }

    /// How long the simulated work of a task of this kind takes, in
    /// milliseconds.
    pub fn work_duration_ms(&self) -> (ms: u64)
        ensures
            ms == self.work_duration(),
            !self.meant_to_time_out() ==> ms < self.effective_timeout(),
            self.meant_to_time_out() ==> ms >= self.effective_timeout(),
    {
        let t = self.get_timeout();
        match self {
            TaskType::Quick { .. } => three_quarters(t),
            TaskType::Long { .. } => eight_tenths(t),
            TaskType::Error { error_type, .. } => match error_type {
                ErrorType::Timeout => t.saturating_add(TIMEOUT_OVERRUN_MS),
                ErrorType::Random => t / 2,
                _ => t / 3,
            },
            TaskType::Custom { .. } => three_quarters(t),
        }
    }
}

/// A task that asks for no timeout runs under the default of its kind.
pub proof fn lemma_default_timeouts(error_type: ErrorType)
    ensures
        (TaskType::Quick { timeout_ms: None }).effective_timeout() == 2000,
        (TaskType::Long { timeout_ms: None }).effective_timeout() == 10000,
        (TaskType::Error { timeout_ms: None, error_type }).effective_timeout() == 5000,
{
}

/// No kind runs under less than the floor, and a request at or above the
/// floor is granted as it stands.
pub proof fn lemma_timeout_floor(kind: TaskType)
    ensures
        kind.effective_timeout() >= MIN_TIMEOUT_MS,
        kind.effective_timeout() >= kind.requested_timeout(),
        kind.requested_timeout() >= MIN_TIMEOUT_MS ==> kind.effective_timeout()
            == kind.requested_timeout(),
{
}

/// The simulated work ends before the timeout, except for the kind that is
/// meant to time out, whose work lasts at least as long.
pub proof fn lemma_work_against_timeout(kind: TaskType)
    ensures
        !kind.meant_to_time_out() ==> kind.work_duration() < kind.effective_timeout(),
        kind.meant_to_time_out() ==> kind.work_duration() >= kind.effective_timeout(),
{
}

/// A `Custom` task with a failure rate of one fails on every draw from the
/// unit interval; one with a rate of zero, or with none, on no draw.
pub proof fn lemma_certain_and_impossible_failure(name: String, timeout_ms: u64, draw: u32)
    requires
        binary32::in_unit_interval(draw),
    ensures
        (TaskType::Custom { name, timeout_ms, failure_rate: Some(binary32::ONE) }).failure(draw)
            == Some(ErrorType::Random),
        (TaskType::Custom { name, timeout_ms, failure_rate: Some(binary32::ZERO) }).failure(draw)
            is None,
        (TaskType::Custom { name, timeout_ms, failure_rate: None }).failure(draw) is None,
{
}

} // verus!

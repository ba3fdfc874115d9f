//! Requests as they arrive from an interface in front of the engine: the
//! limits they must keep, and what they ask of the engine.

use vstd::prelude::*;
use vstd::string::*;
use crate::binary32;
use crate::kind::{ErrorType, TaskType};
use crate::record::{TaskMetadata, TaskStatus};
use crate::text::same_text;

verus! {

/// Most characters that the name of a task may have.
pub const MAX_NAME_CHARS: usize = 100;

/// Most characters that the message of a task may have.
pub const MAX_MESSAGE_CHARS: usize = 500;

/// Longest timeout of a custom task, in milliseconds: five minutes.
pub const MAX_CUSTOM_TIMEOUT_MS: u64 = 300000;

/// The kind of task that a request asks for.
#[derive(Debug)]
#[allow(inconsistent_fields)]
pub enum TaskTypeRequest {
    Quick { timeout_ms: Option<u64> },
    Long { timeout_ms: Option<u64> },
    Error {
        timeout_ms: Option<u64>,
        /// Name of the failure mode; see [`error_type_named`].
        error_type: Option<String>,
    },
    Custom {
        custom_name: String,
        timeout_ms: u64,
        /// Probability of failure, as the bits of its single-precision
        /// encoding (see [`binary32`]).
        failure_rate: Option<u32>,
    },
}

/// A request to create a task.
#[derive(Debug)]
pub struct CreateTaskRequest {
    pub name: String,
    pub message: String,
    pub task_type: TaskTypeRequest,
}

/// Why a request to create a task is refused.
#[derive(Debug, Clone, Copy, PartialEq, Eq, Structural)]
#[allow(inconsistent_fields)]
pub enum ValidationError {
    /// The name has more than [`MAX_NAME_CHARS`] characters.
    NameTooLong { provided_length: usize },
    /// The message has more than [`MAX_MESSAGE_CHARS`] characters.
    MessageTooLong { provided_length: usize },
    /// The timeout of a custom task is above [`MAX_CUSTOM_TIMEOUT_MS`].
    TimeoutTooLong { provided_value: u64 },
    /// The failure rate of a custom task is no number from zero to one.
    FailureRateOutOfRange { provided_value: u32 },
}

/// Why a request to cancel a task is refused before it reaches the manager.
#[derive(Debug, Clone, Copy, PartialEq, Eq, Structural)]
pub enum CancelRefusal {
    /// There is no such task.
    NotFound,
    /// The task has already reached a terminal state.
    AlreadyCompleted,
}

/// Whether an encoded failure rate is no number of the closed unit interval:
/// it is a NaN, or less than zero, or greater than one.
pub open spec fn rate_out_of_range(rate: u32) -> bool {
    binary32::is_nan(rate) || binary32::less_than(rate, binary32::ZERO) || binary32::less_than(
        binary32::ONE,
        rate,
    )
}

/// The failure mode that a request names. A name that is absent or not known
/// stands for `Immediate`.
pub open spec fn error_type_named(name: Option<Seq<char>>) -> ErrorType {
    match name {
        Some(name) => if name == "timeout"@ {
            ErrorType::Timeout
        } else if name == "random"@ {
            ErrorType::Random
        } else if name == "network"@ {
            ErrorType::NetworkError
        } else if name == "validation"@ {
            ErrorType::ValidationError
        } else {
            ErrorType::Immediate
        },
        None => ErrorType::Immediate,
    }
}

/// The first limit that a request with these contents breaks, if it breaks
/// any: the name is checked first, then the message, then the timeout and
/// the failure rate of a custom task.
pub open spec fn first_violation(
    name: Seq<char>,
    message: Seq<char>,
    task_type: TaskTypeRequest,
) -> Option<ValidationError> {
    if name.len() > MAX_NAME_CHARS {
        Some(ValidationError::NameTooLong { provided_length: name.len() as usize })
    } else if message.len() > MAX_MESSAGE_CHARS {
        Some(ValidationError::MessageTooLong { provided_length: message.len() as usize })
    } else {
        match task_type {
            TaskTypeRequest::Custom { timeout_ms, failure_rate, .. } => {
                if timeout_ms > MAX_CUSTOM_TIMEOUT_MS {
                    Some(ValidationError::TimeoutTooLong { provided_value: timeout_ms })
                } else {
                    match failure_rate {
                        Some(rate) if rate_out_of_range(rate) => Some(
                            ValidationError::FailureRateOutOfRange { provided_value: rate },
                        ),
                        _ => None,
                    }
                }
            },
            _ => None,
        }
    }
}

impl ValidationError {
    /// The text that tells a caller what was wrong.
    pub open spec fn text(self) -> Seq<char> {
        match self {
            ValidationError::NameTooLong { .. } => "Task name cannot exceed 100 characters"@,
            ValidationError::MessageTooLong { .. } => "Task message cannot exceed 500 characters"@,
            ValidationError::TimeoutTooLong { .. } => "Custom task timeout cannot exceed 5 minutes (300000ms)"@,
            ValidationError::FailureRateOutOfRange { .. } => "Failure rate must be between 0.0 and 1.0"@,
        }
    }

    /// The text that tells a caller what was wrong.
    pub fn message(&self) -> (s: String)
        ensures
            s@ == self.text(),
    {
        match self {
            ValidationError::NameTooLong { .. } => "Task name cannot exceed 100 characters".to_string(),
            ValidationError::MessageTooLong { .. } => "Task message cannot exceed 500 characters".to_string(),
            ValidationError::TimeoutTooLong { .. } => "Custom task timeout cannot exceed 5 minutes (300000ms)".to_string(),
            ValidationError::FailureRateOutOfRange { .. } => "Failure rate must be between 0.0 and 1.0".to_string(),
        }
    }
}

impl TaskTypeRequest {
    /// The kind that the engine takes for this request.
    pub open spec fn kind(self) -> TaskType {
        match self {
            TaskTypeRequest::Quick { timeout_ms } => TaskType::Quick { timeout_ms },
            TaskTypeRequest::Long { timeout_ms } => TaskType::Long { timeout_ms },
            TaskTypeRequest::Error { timeout_ms, error_type } => TaskType::Error {
                timeout_ms,
                error_type: error_type_named(
                    match error_type {
                        Some(name) => Some(name@),
                        None => None,
                    },
                ),
            },
            TaskTypeRequest::Custom { custom_name, timeout_ms, failure_rate } => TaskType::Custom {
                name: custom_name,
                timeout_ms,
                failure_rate,
            },
        }
    }

    /// Turns the request into the kind that the engine takes.
    pub fn to_task_type(self) -> (kind: TaskType)
        ensures
            kind == self.kind(),
    {
        match self {
            TaskTypeRequest::Quick { timeout_ms } => TaskType::Quick { timeout_ms },
            TaskTypeRequest::Long { timeout_ms } => TaskType::Long { timeout_ms },
            TaskTypeRequest::Error { timeout_ms, error_type } => {
                let error_type = match &error_type {
                    Some(name) => {
                        let name = name.as_str();
                        if same_text(name, "timeout") {
                            ErrorType::Timeout
                        } else if same_text(name, "random") {
                            ErrorType::Random
                        } else if same_text(name, "network") {
                            ErrorType::NetworkError
                        } else if same_text(name, "validation") {
                            ErrorType::ValidationError
                        } else {
                            ErrorType::Immediate
                        }
                    },
                    None => ErrorType::Immediate,
                };
                TaskType::Error { timeout_ms, error_type }
            },
            TaskTypeRequest::Custom { custom_name, timeout_ms, failure_rate } => TaskType::Custom {
                name: custom_name,
                timeout_ms,
                failure_rate,
            },
        }
    }
}

impl CreateTaskRequest {
    /// Checks the request against the limits. It passes exactly when it
    /// breaks none; otherwise the error is the first limit that it breaks.
    pub fn validate(&self) -> (verdict: Result<(), ValidationError>)
        ensures
            verdict is Ok <==> first_violation(self.name@, self.message@, self.task_type) is None,
            verdict is Err ==> Some(verdict->Err_0) == first_violation(
                self.name@,
                self.message@,
                self.task_type,
            ),
    {
        let name_length = self.name.as_str().unicode_len();
        if name_length > MAX_NAME_CHARS {
            return Err(ValidationError::NameTooLong { provided_length: name_length });
        }
        let message_length = self.message.as_str().unicode_len();
        if message_length > MAX_MESSAGE_CHARS {
            return Err(ValidationError::MessageTooLong { provided_length: message_length });
        }
        match &self.task_type {
            TaskTypeRequest::Custom { timeout_ms, failure_rate, .. } => {
                if *timeout_ms > MAX_CUSTOM_TIMEOUT_MS {
                    return Err(ValidationError::TimeoutTooLong { provided_value: *timeout_ms });
                }
                if let Some(rate) = failure_rate {
                    if binary32::nan(*rate) || binary32::lt(*rate, binary32::ZERO) || binary32::lt(
                        binary32::ONE,
                        *rate,
                    ) {
                        return Err(
                            ValidationError::FailureRateOutOfRange { provided_value: *rate },
                        );
                    }
                }
                Ok(())
            },
            _ => Ok(()),
        }
    }
}

/// Decides whether a request to cancel goes on to the manager, from what
/// the registry holds for the task: only a task in progress can be
/// cancelled.
pub fn check_cancellable(task: &Option<TaskMetadata>) -> (verdict: Result<(), CancelRefusal>)
    ensures
        verdict == match *task {
            None => Err::<(), CancelRefusal>(CancelRefusal::NotFound),
            Some(t) => if t.status is InProgress {
                Ok(())
            } else {
                Err(CancelRefusal::AlreadyCompleted)
            },
        },
{
    match task {
        None => Err(CancelRefusal::NotFound),
        Some(t) => if t.status == TaskStatus::InProgress {
            Ok(())
        } else {
            Err(CancelRefusal::AlreadyCompleted)
        },
    }
}

/// A failure rate passes exactly when it is a number of the closed unit
/// interval; a NaN, a negative number and a number above one are refused.
pub proof fn lemma_rates_in_range(rate: u32)
    ensures
        rate_out_of_range(rate) <==> !binary32::in_closed_unit_interval(rate),
        rate <= binary32::ONE ==> !rate_out_of_range(rate),
        rate == binary32::SIGN ==> !rate_out_of_range(rate),
        binary32::is_nan(rate) ==> rate_out_of_range(rate),
        binary32::ONE < rate <= binary32::INFINITY ==> rate_out_of_range(rate),
        binary32::SIGN < rate ==> rate_out_of_range(rate),
{
}

/// A request passes exactly when its name and its message keep their
/// lengths and, for a custom task, the timeout keeps its limit and the
/// failure rate, if there is one, is a number of the closed unit interval.
/// The timeouts of the other kinds are not limited.
pub proof fn lemma_requests_that_pass(
    name: Seq<char>,
    message: Seq<char>,
    task_type: TaskTypeRequest,
)
    ensures
        first_violation(name, message, task_type) is None <==> {
            &&& name.len() <= MAX_NAME_CHARS
            &&& message.len() <= MAX_MESSAGE_CHARS
            &&& (task_type matches TaskTypeRequest::Custom { timeout_ms, failure_rate, .. } ==> {
                &&& timeout_ms <= MAX_CUSTOM_TIMEOUT_MS
                &&& (failure_rate matches Some(rate) ==> binary32::in_closed_unit_interval(rate))
            })
        },
{
}

} // verus!

//! A task-lifecycle engine: time-bounded tasks, each driven by a worker state
//! machine to exactly one terminal outcome, and a manager that keeps the
//! authoritative registry of task snapshots.
//!
//! The engine is written as transition functions: a worker or the manager
//! takes a message, changes its state and answers with what is to be done
//! next. Waiting, messaging and timers belong to the runtime around it, which
//! does what the answers say and hands back the events that follow.
//!
//! - [`record`]: the task snapshot, its model and its terminal transitions.
//! - [`kind`]: the kinds of task, with their timeouts, names and work.
//! - [`worker`]: the state machine of one task.
//! - [`manager`]: the registry, creation, cancellation and reconciliation.
//! - [`lifecycle`]: the course of a task from creation to its final row.
//! - [`request`], [`liveview`], [`modal`], [`api`]: the rules of the
//!   interfaces in front of the engine.
//! - [`binary32`], [`text`]: encoded probabilities and texts.
//! - [`environment`]: the wall clock and random identifiers.

pub mod api;
pub mod binary32;
pub mod environment;
pub mod kind;
pub mod lifecycle;
pub mod liveview;
pub mod manager;
pub mod modal;
pub mod record;
pub mod request;
pub mod text;
pub mod worker;

pub use api::{ApiResponse, TaskCreateResponse, TaskListResponse, TaskStatusUpdate};
pub use kind::{ErrorType, TaskType};
pub use liveview::{LiveViewState, UpdateTasks};
pub use manager::{
    CancelTaskById, CreateTask, GetAllTasks, GetTask, Launch, LaunchPlan, TaskFinished,
    TaskManagerActor,
};
pub use modal::TaskTypeConfig;
pub use record::{TaskMetadata, TaskStatus};
pub use worker::{
    CancelTask, CompleteTask, ErrorTask, GetTaskStatus, StartTask, TaskActor, TimeoutTask,
    WorkerAction, WorkerMessage,
};

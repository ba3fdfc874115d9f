//! The shapes in which answers leave the engine for an interface in front of
//! it.

use vstd::prelude::*;
use crate::record::{TaskMetadata, TaskStatus};

verus! {

/// An answer that either carries data or names an error.
#[derive(Debug, Clone)]
pub struct ApiResponse<T> {
    pub success: bool,
    pub data: Option<T>,
    pub error: Option<String>,
}

impl<T> ApiResponse<T> {
    /// The answer that carries `data`.
    pub fn success(data: T) -> (response: Self)
        ensures
            response.success,
            response.data == Some(data),
            response.error is None,
    {
        ApiResponse { success: true, data: Some(data), error: None }
    }

    /// The answer that names an error.
    pub fn error(message: String) -> (response: Self)
        ensures
            !response.success,
            response.data is None,
            response.error == Some(message),
    {
        ApiResponse { success: false, data: None, error: Some(message) }
    }
}

/// The answer to the creation of a task.
#[derive(Debug, Clone)]
pub struct TaskCreateResponse {
    pub id: u128,
    pub name: String,
    pub status: TaskStatus,
    /// Milliseconds since the Unix epoch.
    pub created_at: i64,
}

/// A list of task snapshots with their number.
#[derive(Debug)]
pub struct TaskListResponse {
    pub tasks: Vec<TaskMetadata>,
    pub total: usize,
}

impl TaskListResponse {
    /// The list of `tasks`, counted.
    pub fn new(tasks: Vec<TaskMetadata>) -> (list: Self)
        ensures
            list.tasks == tasks,
            list.total == tasks.len(),
    {
        let total = tasks.len();
        TaskListResponse { tasks, total }
    }
}

/// A change of status of one task.
#[derive(Debug, Clone)]
pub struct TaskStatusUpdate {
    pub id: u128,
    pub status: TaskStatus,
    /// Milliseconds since the Unix epoch.
    pub updated_at: i64,
    pub result: Option<String>,
    pub error: Option<String>,
}

} // verus!

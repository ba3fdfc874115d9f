//! What the task-creation dialog shows for each kind of task.

use vstd::prelude::*;
use crate::text::same_text;

verus! {

/// The labels and defaults that the dialog shows for one kind of task.
#[derive(Debug, Clone)]
pub struct TaskTypeConfig {
    pub name: String,
    pub badge_class: String,
    pub placeholder: String,
    pub description: String,
    /// Timeout in milliseconds that the dialog proposes.
    pub default_timeout: u64,
    pub has_custom_options: bool,
}

/// Mathematical model of a [`TaskTypeConfig`].
pub struct DialogConfig {
    pub name: Seq<char>,
    pub badge_class: Seq<char>,
    pub placeholder: Seq<char>,
    pub description: Seq<char>,
    pub default_timeout: nat,
    pub has_custom_options: bool,
}

impl View for TaskTypeConfig {
    type V = DialogConfig;

    open spec fn view(&self) -> DialogConfig {
        DialogConfig {
            name: self.name@,
            badge_class: self.badge_class@,
            placeholder: self.placeholder@,
            description: self.description@,
            default_timeout: self.default_timeout as nat,
            has_custom_options: self.has_custom_options,
        }
    }
}

/// The configuration of the kind called `task_type`. A name other than
/// `long`, `error` and `custom` stands for the quick kind.
pub open spec fn config_of(task_type: Seq<char>) -> DialogConfig {
    if task_type == "long"@ {
        DialogConfig {
            name: "Long Task"@,
            badge_class: "badge-long"@,
            placeholder: "Long task message (completes in ~10s)"@,
            description: "A longer task that takes approximately 10 seconds to complete"@,
            default_timeout: 10000,
            has_custom_options: false,
        }
    } else if task_type == "error"@ {
        DialogConfig {
            name: "Error Task"@,
            badge_class: "badge-error"@,
            placeholder: "Error task message (will fail for testing)"@,
            description: "A task designed to fail for testing error handling"@,
            default_timeout: 5000,
            has_custom_options: false,
        }
    } else if task_type == "custom"@ {
        DialogConfig {
            name: "Custom Task"@,
            badge_class: "badge-custom"@,
            placeholder: "Custom task message"@,
            description: "A fully customizable task with configurable timeout and failure rate"@,
            default_timeout: 5000,
            has_custom_options: true,
        }
    } else {
        DialogConfig {
            name: "Quick Task"@,
            badge_class: "badge-quick"@,
            placeholder: "Quick task message (completes in ~2s)"@,
            description: "A fast task that completes in approximately 2 seconds"@,
            default_timeout: 2000,
            has_custom_options: false,
        }
    }
}

impl TaskTypeConfig {
    /// The configuration of the kind called `task_type`; that of the quick
    /// kind for a name that is not known.
    pub fn get_config(task_type: &str) -> (config: Self)
        ensures
            config@ == config_of(task_type@),
    {
        if same_text(task_type, "long") {
            TaskTypeConfig {
                name: "Long Task".to_string(),
                badge_class: "badge-long".to_string(),
                placeholder: "Long task message (completes in ~10s)".to_string(),
                description: "A longer task that takes approximately 10 seconds to complete".to_string(),
                default_timeout: 10000,
                has_custom_options: false,
            }
        } else if same_text(task_type, "error") {
            TaskTypeConfig {
                name: "Error Task".to_string(),
                badge_class: "badge-error".to_string(),
                placeholder: "Error task message (will fail for testing)".to_string(),
                description: "A task designed to fail for testing error handling".to_string(),
                default_timeout: 5000,
                has_custom_options: false,
            }
        } else if same_text(task_type, "custom") {
            TaskTypeConfig {
                name: "Custom Task".to_string(),
                badge_class: "badge-custom".to_string(),
                placeholder: "Custom task message".to_string(),
                description: "A fully customizable task with configurable timeout and failure rate".to_string(),
                default_timeout: 5000,
                has_custom_options: true,
            }
        } else {
            TaskTypeConfig {
                name: "Quick Task".to_string(),
                badge_class: "badge-quick".to_string(),
                placeholder: "Quick task message (completes in ~2s)".to_string(),
                description: "A fast task that completes in approximately 2 seconds".to_string(),
                default_timeout: 2000,
                has_custom_options: false,
            }
        }
    }
}

} // verus!

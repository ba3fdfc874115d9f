//! The rules of a live view session: what a client message asks for, which
//! tasks a column shows, and when a silent client is given up.

use vstd::prelude::*;
use crate::kind::{ErrorType, TaskType};
use crate::manager::CreateTask;
use crate::record::{TaskMetadata, TaskStatus};
use crate::text::same_text;

verus! {

/// Time between two heartbeats, in milliseconds.
pub const HEARTBEAT_INTERVAL_MS: u64 = 5000;

/// Silence after which a client is given up, in nanoseconds: ten seconds.
pub const CLIENT_TIMEOUT_NANOS: u128 = 10_000_000_000;

/// Timeout of a custom task whose message names none, in milliseconds.
pub const CUSTOM_TIMEOUT_MS: u64 = 5000;

/// Whether a client that has been silent for `idle_nanos` nanoseconds is
/// given up.
pub fn heartbeat_expired(idle_nanos: u128) -> (expired: bool)
    ensures
        expired == (idle_nanos > CLIENT_TIMEOUT_NANOS),
{
    idle_nanos > CLIENT_TIMEOUT_NANOS
}

/// What a client message asks of the session.
#[derive(Debug, Clone, Copy, PartialEq, Eq, Structural)]
pub enum ClientCommand {
    CreateTask,
    CancelTask,
    Refresh,
    Unknown,
}

/// The command that a message of type `msg_type` stands for.
pub open spec fn command_of(msg_type: Seq<char>) -> ClientCommand {
    if msg_type == "create_task"@ || msg_type == "create_custom_task"@ {
        ClientCommand::CreateTask
    } else if msg_type == "cancel_task"@ {
        ClientCommand::CancelTask
    } else if msg_type == "refresh"@ {
        ClientCommand::Refresh
    } else {
        ClientCommand::Unknown
    }
}

/// Reads the type of a client message.
pub fn client_command(msg_type: &str) -> (command: ClientCommand)
    ensures
        command == command_of(msg_type@),
{
    if same_text(msg_type, "create_task") || same_text(msg_type, "create_custom_task") {
        ClientCommand::CreateTask
    } else if same_text(msg_type, "cancel_task") {
        ClientCommand::CancelTask
    } else if same_text(msg_type, "refresh") {
        ClientCommand::Refresh
    } else {
        ClientCommand::Unknown
    }
}

/// The kind of task that a client message asks for, by the name of the kind
/// and the fields that a custom task reads. A name that is not known stands
/// for the quick kind.
pub open spec fn requested_kind(
    kind: Seq<char>,
    name: Seq<char>,
    custom_timeout: Option<u64>,
    custom_failure_rate: Option<u32>,
    made: TaskType,
) -> bool {
    if kind == "long"@ {
        made == (TaskType::Long { timeout_ms: None })
    } else if kind == "error"@ {
        made == (TaskType::Error { timeout_ms: None, error_type: ErrorType::Random })
    } else if kind == "custom"@ {
        &&& made matches TaskType::Custom { name: made_name, timeout_ms, failure_rate }
        &&& made_name@ == if name.len() == 0 {
            "Custom Task"@
        } else {
            name
        }
        &&& timeout_ms == match custom_timeout {
            Some(t) => t,
            None => CUSTOM_TIMEOUT_MS,
        }
        &&& failure_rate == custom_failure_rate
    } else {
        made == (TaskType::Quick { timeout_ms: None })
    }
}

/// Builds the kind of task that a client message asks for.
pub fn task_type_for(
    kind: &str,
    name: &str,
    custom_timeout: Option<u64>,
    custom_failure_rate: Option<u32>,
) -> (made: TaskType)
    ensures
        requested_kind(kind@, name@, custom_timeout, custom_failure_rate, made),
{
    if same_text(kind, "long") {
        TaskType::Long { timeout_ms: None }
    } else if same_text(kind, "error") {
        TaskType::Error { timeout_ms: None, error_type: ErrorType::Random }
    } else if same_text(kind, "custom") {
        let timeout_ms = match custom_timeout {
            Some(t) => t,
            None => CUSTOM_TIMEOUT_MS,
        };
        let name = if name.is_empty() {
            "Custom Task".to_string()
        } else {
            name.to_string()
        };
        TaskType::Custom { name, timeout_ms, failure_rate: custom_failure_rate }
    } else {
        TaskType::Quick { timeout_ms: None }
    }
}

/// The page fragment that a session last sent to its client.
#[derive(Debug)]
pub struct SentHtml {
    last: String,
}

impl View for SentHtml {
    type V = Seq<char>;

    closed spec fn view(&self) -> Seq<char> {
        self.last@
    }
}

impl SentHtml {
    /// Nothing sent yet.
    pub fn new() -> (sent: Self)
        ensures
            sent@ == Seq::<char>::empty(),
    {
        SentHtml { last: String::new() }
    }

    /// Notes `html` as sent.
    pub fn remember(&mut self, html: String)
        ensures
            final(self)@ == html@,
    {
        self.last = html;
    }

    /// Whether `html` differs from what was last sent, and so has to be
    /// sent; it is then noted as sent.
    pub fn offer(&mut self, html: &str) -> (changed: bool)
        ensures
            changed == (html@ != old(self)@),
            final(self)@ == html@,
    {
        let changed = !same_text(html, self.last.as_str());
        if changed {
            self.last = html.to_string();
        }
        changed
    }
}

/// The type of a client message: the one it names, or `unknown` where it
/// names none.
pub open spec fn type_or_unknown(msg_type: Option<&str>) -> Seq<char> {
    match msg_type {
        Some(t) => t@,
        None => "unknown"@,
    }
}

/// The type under which a client message is handled and recorded.
pub fn message_type<'a>(msg_type: Option<&'a str>) -> (label: &'a str)
    ensures
        label@ == type_or_unknown(msg_type),
{
    match msg_type {
        Some(t) => t,
        None => "unknown",
    }
}

/// The text of an optional field of a client message, empty where the field
/// is missing.
pub open spec fn text_or_empty(field: Option<&str>) -> Seq<char> {
    match field {
        Some(t) => t@,
        None => Seq::empty(),
    }
}

/// The message of a task whose client message names none.
pub open spec fn default_message() -> Seq<char> {
    "LiveView task"@
}

/// Whether `request` is what a client message with these fields asks the
/// manager for: the name as given, empty where missing; the message as
/// given, or the default; and the kind that the fields call for.
pub open spec fn is_request_for(
    kind: &str,
    name: Option<&str>,
    message: Option<&str>,
    custom_timeout: Option<u64>,
    custom_failure_rate: Option<u32>,
    request: CreateTask,
) -> bool {
    &&& request.name@ == text_or_empty(name)
    &&& request.message@ == match message {
        Some(m) => m@,
        None => default_message(),
    }
    &&& requested_kind(
        kind@,
        text_or_empty(name),
        custom_timeout,
        custom_failure_rate,
        request.task_type,
    )
}

/// Builds the request that a client message asks the manager for. A message
/// that names no kind asks for nothing.
pub fn create_request(
    kind: Option<&str>,
    name: Option<&str>,
    message: Option<&str>,
    custom_timeout: Option<u64>,
    custom_failure_rate: Option<u32>,
) -> (request: Option<CreateTask>)
    ensures
        request is Some <==> kind is Some,
        request matches Some(r) ==> is_request_for(
            kind.unwrap(),
            name,
            message,
            custom_timeout,
            custom_failure_rate,
            r,
        ),
{
    let kind = match kind {
        Some(kind) => kind,
        None => {
            return None;
        },
    };
    let name = match name {
        Some(name) => name,
        None => "",
    };
    proof {
        reveal_strlit("");
        assert(""@ =~= Seq::<char>::empty());
    }
    let message = match message {
        Some(message) => message.to_string(),
        None => "LiveView task".to_string(),
    };
    let task_type = task_type_for(kind, name, custom_timeout, custom_failure_rate);
    Some(CreateTask { name: name.to_string(), message, task_type })
}

/// Carries a new list of snapshots to a session.
#[derive(Debug)]
pub struct UpdateTasks {
    pub tasks: Vec<TaskMetadata>,
}

/// What a session shows: the snapshots it last received.
#[derive(Debug, Clone)]
pub struct LiveViewState {
    pub tasks: Vec<TaskMetadata>,
}

impl Default for LiveViewState {
    fn default() -> (state: Self)
        ensures
            state.tasks@ == Seq::<TaskMetadata>::empty(),
    {
        LiveViewState { tasks: Vec::new() }
    }
}

impl LiveViewState {
    /// The snapshots with the given status, in the order in which the state
    /// holds them.
    pub fn get_tasks_by_status(&self, status: TaskStatus) -> (found: Vec<TaskMetadata>)
        ensures
            found@ == self.tasks@.filter(|t: TaskMetadata| t.status == status),
    {
        let ghost wanted = |t: TaskMetadata| t.status == status;
        let mut found: Vec<TaskMetadata> = Vec::new();
        let mut i: usize = 0;
        proof {
            reveal_with_fuel(Seq::filter, 2);
            assert(self.tasks@.take(0) =~= Seq::<TaskMetadata>::empty());
        }
        while i < self.tasks.len()
            invariant
                i <= self.tasks.len(),
                wanted == |t: TaskMetadata| t.status == status,
                found@ == self.tasks@.take(i as int).filter(wanted),
            decreases self.tasks.len() - i,
        {
            proof {
                reveal_with_fuel(Seq::filter, 2);
                let next = self.tasks@.take(i + 1);
                assert(next.drop_last() =~= self.tasks@.take(i as int));
                assert(next.last() == self.tasks@[i as int]);
            }
            if self.tasks[i].status == status {
                found.push(self.tasks[i].clone());
            }
            i += 1;
        }
        proof {
            assert(self.tasks@.take(i as int) =~= self.tasks@);
        }
        found
    }

    /// Takes a new list of snapshots in place of the old one.
    pub fn update(&mut self, msg: UpdateTasks)
        ensures
            final(self).tasks == msg.tasks,
    {
        self.tasks = msg.tasks;
    }
}

} // verus!

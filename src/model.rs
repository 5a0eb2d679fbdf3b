use vstd::prelude::*;
use vstd::string::StringExecFns;

verus! {

/// Milliseconds in one calendar day.
pub const MILLIS_PER_DAY: i64 = 86_400_000;

/// `days_from_ce` of 1970-01-01, the Unix epoch (January 1 of year 1 is day 1).
pub const UNIX_EPOCH_DAYS_FROM_CE: i32 = 719_163;

/// Urgency of a task.
#[derive(Debug, Clone, Copy, PartialEq, Eq, Structural)]
pub enum ETaskPriority {
    Normal,
    High,
}

impl Default for ETaskPriority {
    fn default() -> (r: Self)
        ensures
            r == ETaskPriority::Normal,
    {
        ETaskPriority::Normal
    }
}

/// Progress of a task.
#[derive(Debug, Clone, Copy, PartialEq, Eq, Structural)]
pub enum ETaskStatus {
    NotStarted,
    Pending,
    InProgress,
    Completed,
}

impl Default for ETaskStatus {
    fn default() -> (r: Self)
        ensures
            r == ETaskStatus::NotStarted,
    {
        ETaskStatus::NotStarted
    }
}

/// A calendar date of the proleptic Gregorian calendar, counted in days with
/// January 1 of year 1 as day 1.
#[derive(Debug, Clone, Copy, PartialEq, Eq, Structural)]
pub struct CivilDate {
    pub days_from_ce: i32,
}

/// An instant, in milliseconds since the Unix epoch (UTC).
#[derive(Debug, Clone, Copy, PartialEq, Eq, Structural)]
pub struct Timestamp {
    pub millis: i64,
}

/// The instant at which `d` begins, at midnight UTC.
pub open spec fn midnight_millis(d: CivilDate) -> int {
    (d.days_from_ce - UNIX_EPOCH_DAYS_FROM_CE) * MILLIS_PER_DAY
}

impl CivilDate {
    /// Midnight UTC at the start of this date.
    pub fn midnight_utc(&self) -> (r: Timestamp)
        ensures
            r.millis == midnight_millis(*self),
    {
        let days: i64 = self.days_from_ce as i64 - UNIX_EPOCH_DAYS_FROM_CE as i64;
        assert(-3_000_000_000 <= days <= 3_000_000_000);
        assert(-3_000_000_000 * 86_400_000 <= days * 86_400_000 <= 3_000_000_000 * 86_400_000)
            by (nonlinear_arith)
            requires
                -3_000_000_000 <= days <= 3_000_000_000,
        ;
        Timestamp { millis: days * MILLIS_PER_DAY }
    }

    /// Midnight UTC at the start of the following date.
    pub fn next_midnight_utc(&self) -> (r: Timestamp)
        ensures
            r.millis == midnight_millis(*self) + MILLIS_PER_DAY,
    {
        let days: i64 = self.days_from_ce as i64 - UNIX_EPOCH_DAYS_FROM_CE as i64 + 1;
        assert(-3_000_000_000 * 86_400_000 <= days * 86_400_000 <= 3_000_000_000 * 86_400_000)
            by (nonlinear_arith)
            requires
                -3_000_000_000 <= days <= 3_000_000_000,
        ;
        Timestamp { millis: days * MILLIS_PER_DAY }
    }
}

/// A stored task. `deleted` is the soft-delete marker: absent or `false`
/// means visible, `true` means hidden from every standard read.
#[derive(Debug, Clone)]
pub struct Task {
    pub id: i64,
    pub name: String,
    pub priority: ETaskPriority,
    pub status: ETaskStatus,
    pub due_date: Option<Timestamp>,
    pub created_at: Timestamp,
    pub deleted: Option<bool>,
}

impl Task {
    /// Whether the task is visible to standard reads.
    pub open spec fn is_visible(self) -> bool {
        self.deleted != Some(true)
    }

    /// An identical copy of the task.
    pub fn duplicate(&self) -> (r: Task)
        ensures
            r == *self,
    {
        Task {
            id: self.id,
            name: self.name.clone(),
            priority: self.priority,
            status: self.status,
            due_date: self.due_date,
            created_at: self.created_at,
            deleted: self.deleted,
        }
    }
}

/// The due date as stored: midnight UTC of the given date.
pub open spec fn stored_due_date(d: Option<CivilDate>) -> Option<Timestamp> {
    match d {
        Some(day) => Some(Timestamp { millis: midnight_millis(day) as i64 }),
        None => None,
    }
}

/// Converts an optional date to the instant stored for it, midnight UTC.
pub fn convert_due_date(due_date: Option<CivilDate>) -> (r: Option<Timestamp>)
    ensures
        r == stored_due_date(due_date),
{
    match due_date {
        Some(day) => Some(day.midnight_utc()),
        None => None,
    }
}

/// A task as shown to callers: the stored record without its soft-delete marker.
#[derive(Debug, Clone)]
pub struct TaskResponse {
    pub id: i64,
    pub name: String,
    pub priority: ETaskPriority,
    pub status: ETaskStatus,
    pub due_date: Option<Timestamp>,
    pub created_at: Timestamp,
}

impl TaskResponse {
    pub open spec fn of_task(t: Task) -> TaskResponse {
        TaskResponse {
            id: t.id,
            name: t.name,
            priority: t.priority,
            status: t.status,
            due_date: t.due_date,
            created_at: t.created_at,
        }
    }

    /// The responses for `tasks`, in the same order.
    pub fn from_vec(tasks: Vec<Task>) -> (r: Vec<TaskResponse>)
        ensures
            r@ == tasks@.map_values(|t: Task| TaskResponse::of_task(t)),
    {
        let mut out: Vec<TaskResponse> = Vec::new();
        let mut i: usize = 0;
        while i < tasks.len()
            invariant
                i <= tasks.len(),
                out@ == tasks@.subrange(0, i as int).map_values(|t: Task| TaskResponse::of_task(t)),
            decreases tasks.len() - i,
        {
            let t = &tasks[i];
            out.push(TaskResponse {
                id: t.id,
                name: t.name.clone(),
                priority: t.priority,
                status: t.status,
                due_date: t.due_date,
                created_at: t.created_at,
            });
            i = i + 1;
            assert(out@ =~= tasks@.subrange(0, i as int).map_values(|t: Task| TaskResponse::of_task(t)));
        }
        assert(tasks@.subrange(0, i as int) =~= tasks@);
        out
    }
}

impl From<Task> for TaskResponse {
    fn from(task: Task) -> (r: TaskResponse) {
        TaskResponse {
            id: task.id,
            name: task.name,
            priority: task.priority,
            status: task.status,
            due_date: task.due_date,
            created_at: task.created_at,
        }
    }
}

impl vstd::std_specs::convert::FromSpecImpl<Task> for TaskResponse {
    open spec fn obeys_from_spec() -> bool {
        true
    }

    open spec fn from_spec(task: Task) -> TaskResponse {
        TaskResponse::of_task(task)
    }
}

/// A request to create one task; absent fields take their defaults.
#[derive(Debug, Clone)]
pub struct CreateTaskRequest {
    pub name: String,
    pub due_date: Option<CivilDate>,
    pub priority: Option<ETaskPriority>,
    pub status: Option<ETaskStatus>,
}

/// A request to create several tasks at once.
#[derive(Debug, Clone)]
pub struct BulkCreateTaskRequest {
    pub tasks: Vec<CreateTaskRequest>,
}

/// The fields of a partial update; absent fields keep their value.
#[derive(Debug, Clone, Copy, PartialEq, Eq, Structural)]
pub struct UpdateTaskRequest {
    pub due_date: Option<CivilDate>,
    pub priority: Option<ETaskPriority>,
    pub status: Option<ETaskStatus>,
}

impl UpdateTaskRequest {
    /// Whether no field at all is supplied.
    pub open spec fn spec_is_empty(self) -> bool {
        self.due_date is None && self.priority is None && self.status is None
    }

    pub fn is_empty(&self) -> (r: bool)
        ensures
            r == self.spec_is_empty(),
    {
        self.due_date.is_none() && self.priority.is_none() && self.status.is_none()
    }
}

/// Optional search filters, all combined by logical AND.
#[derive(Debug, Clone)]
pub struct TaskSearchParams {
    pub query: Option<String>,
    pub status: Option<ETaskStatus>,
    pub priority: Option<ETaskPriority>,
    pub due_date: Option<CivilDate>,
}

/// Search filters together with the partial update applied to every match.
#[derive(Debug, Clone)]
pub struct SearchAndUpdateRequest {
    pub query: Option<String>,
    pub status_filter: Option<ETaskStatus>,
    pub priority_filter: Option<ETaskPriority>,
    pub due_date_filter: Option<CivilDate>,
    pub due_date: Option<CivilDate>,
    pub priority: Option<ETaskPriority>,
    pub status: Option<ETaskStatus>,
}

/// Why a repository operation did not succeed.
#[derive(Debug, Clone, PartialEq, Eq)]
pub enum DbError {
    /// A task name is empty or only whitespace.
    EmptyName,
    /// An update supplies none of its fields.
    NoUpdateFields,
    /// An id range of zero or fewer ids was requested.
    InvalidCount,
    /// The id sequence cannot grow any further within 64 bits.
    IdSpaceExhausted,
    /// The persistence backend failed; the text describes how.
    Storage(String),
}

impl DbError {
    /// The message shown to a caller: it names the offending input and keeps
    /// the backend's own description of a storage failure.
    pub open spec fn spec_message(self) -> Seq<char> {
        match self {
            DbError::EmptyName => "name must not be empty"@,
            DbError::NoUpdateFields => "at least one update field must be provided"@,
            DbError::InvalidCount => "count must be greater than 0"@,
            DbError::IdSpaceExhausted => "no ids are left in the sequence"@,
            DbError::Storage(detail) => "storage error: "@ + detail@,
        }
    }

    /// Whether the error is the caller's to fix (bad input) rather than a failure.
    pub open spec fn spec_is_validation(self) -> bool {
        self is EmptyName || self is NoUpdateFields
    }

    pub fn message(&self) -> (r: String)
        ensures
            r@ == self.spec_message(),
    {
        let text = match self {
            DbError::EmptyName => "name must not be empty",
            DbError::NoUpdateFields => "at least one update field must be provided",
            DbError::InvalidCount => "count must be greater than 0",
            DbError::IdSpaceExhausted => "no ids are left in the sequence",
            DbError::Storage(detail) => {
                let prefix = "storage error: ".to_string();
                proof {
                    vstd::string::to_string_from_display_ensures_for_str("storage error: ", prefix);
                }
                return prefix.concat(detail.as_str());
            },
        };
        let r = text.to_string();
        proof {
            vstd::string::to_string_from_display_ensures_for_str(text, r);
        }
        r
    }

    pub fn is_validation(&self) -> (r: bool)
        ensures
            r == self.spec_is_validation(),
    {
        match self {
            DbError::EmptyName | DbError::NoUpdateFields => true,
            _ => false,
        }
    }
}

} // verus!

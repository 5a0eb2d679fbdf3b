use vstd::prelude::*;
use crate::dates::{civil_date_of, parse_day_month_year, parsed_date};
use crate::formatters::{priority_of_param, status_of_param, EnumFormatter};
use crate::model::{
    BulkCreateTaskRequest, CivilDate, CreateTaskRequest, ETaskPriority, ETaskStatus,
    SearchAndUpdateRequest, TaskSearchParams, UpdateTaskRequest,
};

verus! {

/// Tool input naming one task.
#[derive(Debug, Clone)]
pub struct GetTaskByIdParams {
    pub task_id: i64,
}

/// Tool input for creating a task; dates are written `DD-MM-YYYY`.
#[derive(Debug, Clone)]
pub struct CreateTaskParams {
    pub name: String,
    pub due_date: Option<String>,
    pub priority: Option<String>,
    pub status: Option<String>,
}

/// Tool input for updating one task.
#[derive(Debug, Clone)]
pub struct UpdateTaskByIdParams {
    pub task_id: i64,
    pub status: Option<String>,
    pub priority: Option<String>,
    pub due_date: Option<String>,
}

/// Tool input for creating tasks in bulk, as parallel lists.
#[derive(Debug, Clone)]
pub struct BulkCreateTaskParams {
    pub names: Vec<String>,
    pub statuses: Vec<Option<String>>,
    pub priorities: Vec<Option<String>>,
    pub due_dates: Vec<Option<String>>,
}

/// Tool input for searching tasks.
#[derive(Debug, Clone)]
pub struct SearchTasksParams {
    pub query: Option<String>,
    pub status: Option<String>,
    pub priority: Option<String>,
    pub due_date: Option<String>,
}

/// Tool input for searching tasks and updating every match.
#[derive(Debug, Clone)]
pub struct SearchAndUpdateParams {
    pub query: Option<String>,
    pub status_filter: Option<String>,
    pub priority_filter: Option<String>,
    pub due_date_filter: Option<String>,
    pub status: Option<String>,
    pub priority: Option<String>,
    pub due_date: Option<String>,
}

/// Tool input for deleting every task of one status.
#[derive(Debug, Clone)]
pub struct DeleteTasksByStatusParams {
    pub status: Option<String>,
}

/// The date named by an optional `DD-MM-YYYY` literal; unreadable ones name none.
pub open spec fn date_of_param(p: Option<String>) -> Option<CivilDate> {
    match p {
        Some(s) => civil_date_of(parsed_date(s@, "%d-%m-%Y"@)),
        None => None,
    }
}

fn status_param(p: &Option<String>) -> (r: Option<ETaskStatus>)
    ensures
        r == status_of_param(*p),
{
    <Option<String> as EnumFormatter<ETaskStatus>>::as_type(p)
}

fn priority_param(p: &Option<String>) -> (r: Option<ETaskPriority>)
    ensures
        r == priority_of_param(*p),
{
    <Option<String> as EnumFormatter<ETaskPriority>>::as_type(p)
}

fn date_param(p: &Option<String>) -> (r: Option<CivilDate>)
    ensures
        r == date_of_param(*p),
{
    match p {
        Some(s) => parse_day_month_year(s.as_str()),
        None => None,
    }
}

/// The creation request for one task given as tool input.
pub open spec fn spec_create_request(
    name: String,
    status: Option<String>,
    priority: Option<String>,
    due_date: Option<String>,
) -> CreateTaskRequest {
    CreateTaskRequest {
        name,
        due_date: date_of_param(due_date),
        priority: priority_of_param(priority),
        status: status_of_param(status),
    }
}

impl CreateTaskParams {
    /// The creation request: unreadable literals count as absent.
    pub fn to_request(&self) -> (r: CreateTaskRequest)
        ensures
            r == spec_create_request(self.name, self.status, self.priority, self.due_date),
    {
        CreateTaskRequest {
            name: self.name.clone(),
            due_date: date_param(&self.due_date),
            priority: priority_param(&self.priority),
            status: status_param(&self.status),
        }
    }
}

impl UpdateTaskByIdParams {
    /// The partial update: unreadable literals count as absent.
    pub fn to_request(&self) -> (r: UpdateTaskRequest)
        ensures
            r == (UpdateTaskRequest {
                due_date: date_of_param(self.due_date),
                priority: priority_of_param(self.priority),
                status: status_of_param(self.status),
            }),
    {
        UpdateTaskRequest {
            due_date: date_param(&self.due_date),
            priority: priority_param(&self.priority),
            status: status_param(&self.status),
        }
    }
}

impl BulkCreateTaskParams {
    /// The number of complete entries: the length of the shortest list.
    pub open spec fn entry_count(self) -> int {
        let a = if self.names@.len() <= self.statuses@.len() {
            self.names@.len()
        } else {
            self.statuses@.len()
        };
        let b = if self.priorities@.len() <= self.due_dates@.len() {
            self.priorities@.len()
        } else {
            self.due_dates@.len()
        };
        if a <= b {
            a as int
        } else {
            b as int
        }
    }

    /// One creation request per position present in all four lists, in order.
    pub fn to_request(&self) -> (r: BulkCreateTaskRequest)
        ensures
            r.tasks@.len() == self.entry_count(),
            forall|k: int|
                0 <= k < self.entry_count() ==> #[trigger] r.tasks@[k] == spec_create_request(
                    self.names@[k],
                    self.statuses@[k],
                    self.priorities@[k],
                    self.due_dates@[k],
                ),
    {
        let mut n = self.names.len();
        if self.statuses.len() < n {
            n = self.statuses.len();
        }
        if self.priorities.len() < n {
            n = self.priorities.len();
        }
        if self.due_dates.len() < n {
            n = self.due_dates.len();
        }
        let mut tasks: Vec<CreateTaskRequest> = Vec::new();
        let mut k: usize = 0;
        while k < n
            invariant
                n == self.entry_count(),
                k <= n,
                tasks@.len() == k,
                forall|j: int|
                    0 <= j < k ==> #[trigger] tasks@[j] == spec_create_request(
                        self.names@[j],
                        self.statuses@[j],
                        self.priorities@[j],
                        self.due_dates@[j],
                    ),
            decreases n - k,
        {
            tasks.push(
                CreateTaskRequest {
                    name: self.names[k].clone(),
                    due_date: date_param(&self.due_dates[k]),
                    priority: priority_param(&self.priorities[k]),
                    status: status_param(&self.statuses[k]),
                },
            );
            k = k + 1;
        }
        BulkCreateTaskRequest { tasks }
    }
}

impl SearchTasksParams {
    /// The search parameters: unreadable literals count as absent.
    pub fn to_request(&self) -> (r: TaskSearchParams)
        ensures
            r == (TaskSearchParams {
                query: self.query,
                status: status_of_param(self.status),
                priority: priority_of_param(self.priority),
                due_date: date_of_param(self.due_date),
            }),
    {
        TaskSearchParams {
            query: self.query.clone(),
            status: status_param(&self.status),
            priority: priority_param(&self.priority),
            due_date: date_param(&self.due_date),
        }
    }
}

impl SearchAndUpdateParams {
    /// The search-and-update request: unreadable literals count as absent.
    pub fn to_request(&self) -> (r: SearchAndUpdateRequest)
        ensures
            r == (SearchAndUpdateRequest {
                query: self.query,
                status_filter: status_of_param(self.status_filter),
                priority_filter: priority_of_param(self.priority_filter),
                due_date_filter: date_of_param(self.due_date_filter),
                due_date: date_of_param(self.due_date),
                priority: priority_of_param(self.priority),
                status: status_of_param(self.status),
            }),
    {
        SearchAndUpdateRequest {
            query: self.query.clone(),
            status_filter: status_param(&self.status_filter),
            priority_filter: priority_param(&self.priority_filter),
            due_date_filter: date_param(&self.due_date_filter),
            due_date: date_param(&self.due_date),
            priority: priority_param(&self.priority),
            status: status_param(&self.status),
        }
    }
}

impl DeleteTasksByStatusParams {
    /// The status to delete; `None` where it is absent or names no status.
    pub fn to_status(&self) -> (r: Option<ETaskStatus>)
        ensures
            r == status_of_param(self.status),
    {
        status_param(&self.status)
    }
}

/// Input naming one task by a textual id.
#[derive(Debug, Clone)]
pub struct GetTaskById {
    pub task_id: String,
}

/// Input for creating a task with a description and a schedule.
#[derive(Debug, Clone)]
pub struct CreateUserTask {
    pub name: String,
    pub description: String,
    pub status: Option<String>,
    pub due_date: Option<String>,
    pub schedule: Option<String>,
}

/// Input for replacing the fields of a task named by a textual id.
#[derive(Debug, Clone)]
pub struct UpdateUserTask {
    pub task_id: String,
    pub user_task: CreateUserTask,
}

/// The status given to a new user task when none is supplied.
pub fn default_status() -> (r: Option<String>)
    ensures
        r matches Some(s) && s@ == "pending"@,
{
    let s = "pending".to_string();
    proof {
        vstd::string::to_string_from_display_ensures_for_str("pending", s);
    }
    Some(s)
}

} // verus!

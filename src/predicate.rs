use vstd::prelude::*;
use crate::model::{
    convert_due_date, midnight_millis, stored_due_date, CivilDate, ETaskPriority, ETaskStatus,
    SearchAndUpdateRequest, Task, TaskSearchParams, Timestamp, UpdateTaskRequest, MILLIS_PER_DAY,
};
use crate::text::{contains_chars, find_chars, lower_of, lowercase};

verus! {

/// A half-open span of instants, `start <= t < end`.
#[derive(Debug, Clone, Copy, PartialEq, Eq, Structural)]
pub struct TimeWindow {
    pub start: Timestamp,
    pub end: Timestamp,
}

/// The span of one calendar day in UTC.
pub open spec fn day_window(d: CivilDate) -> TimeWindow {
    TimeWindow {
        start: Timestamp { millis: midnight_millis(d) as i64 },
        end: Timestamp { millis: (midnight_millis(d) + MILLIS_PER_DAY) as i64 },
    }
}

/// Case-insensitive substring match of a search term against a name.
pub open spec fn name_matches(term: Seq<char>, name: Seq<char>) -> bool {
    contains_chars(lower_of(name), lower_of(term))
}

/// A composed query: the visibility condition and each supplied filter, all
/// of them required.
#[derive(Debug, Clone)]
pub struct TaskPredicate {
    pub name_contains: Option<String>,
    pub status: Option<ETaskStatus>,
    pub priority: Option<ETaskPriority>,
    pub due_within: Option<TimeWindow>,
}

impl TaskPredicate {
    pub open spec fn spec_matches(self, t: Task) -> bool {
        &&& t.is_visible()
        &&& (self.name_contains matches Some(q) ==> name_matches(q@, t.name@))
        &&& (self.status matches Some(s) ==> t.status == s)
        &&& (self.priority matches Some(p) ==> t.priority == p)
        &&& (self.due_within matches Some(w) ==> (t.due_date matches Some(d) && w.start.millis
            <= d.millis < w.end.millis))
    }

    /// Whether `t` satisfies the predicate.
    pub fn matches(&self, t: &Task) -> (r: bool)
        ensures
            r == self.spec_matches(*t),
    {
        if t.deleted == Some(true) {
            return false;
        }
        match &self.name_contains {
            Some(q) => {
                let folded_name = lowercase(t.name.as_str());
                let folded_term = lowercase(q.as_str());
                if !find_chars(folded_name.as_str(), folded_term.as_str()) {
                    return false;
                }
            },
            None => {},
        }
        match self.status {
            Some(s) => {
                if t.status != s {
                    return false;
                }
            },
            None => {},
        }
        match self.priority {
            Some(p) => {
                if t.priority != p {
                    return false;
                }
            },
            None => {},
        }
        match self.due_within {
            Some(w) => match t.due_date {
                Some(d) => w.start.millis <= d.millis && d.millis < w.end.millis,
                None => false,
            },
            None => true,
        }
    }
}

/// The predicate that the given filters describe.
pub open spec fn spec_search_predicate(
    query: Option<String>,
    status: Option<ETaskStatus>,
    priority: Option<ETaskPriority>,
    due_date: Option<CivilDate>,
) -> TaskPredicate {
    TaskPredicate {
        name_contains: query,
        status,
        priority,
        due_within: match due_date {
            Some(d) => Some(day_window(d)),
            None => None,
        },
    }
}

/// Composes the search predicate from independently optional filters.
pub fn build_search_predicate(
    query: Option<String>,
    status: Option<ETaskStatus>,
    priority: Option<ETaskPriority>,
    due_date: Option<CivilDate>,
) -> (r: TaskPredicate)
    ensures
        r == spec_search_predicate(query, status, priority, due_date),
{
    let due_within = match due_date {
        Some(d) => Some(TimeWindow { start: d.midnight_utc(), end: d.next_midnight_utc() }),
        None => None,
    };
    TaskPredicate { name_contains: query, status, priority, due_within }
}

impl TaskSearchParams {
    pub open spec fn spec_predicate(self) -> TaskPredicate {
        spec_search_predicate(self.query, self.status, self.priority, self.due_date)
    }

    /// The predicate of these search parameters.
    pub fn predicate(&self) -> (r: TaskPredicate)
        ensures
            r == self.spec_predicate(),
    {
        build_search_predicate(self.query.clone(), self.status, self.priority, self.due_date)
    }
}

impl SearchAndUpdateRequest {
    pub open spec fn spec_predicate(self) -> TaskPredicate {
        spec_search_predicate(
            self.query,
            self.status_filter,
            self.priority_filter,
            self.due_date_filter,
        )
    }

    pub open spec fn spec_update(self) -> UpdateTaskRequest {
        UpdateTaskRequest { due_date: self.due_date, priority: self.priority, status: self.status }
    }

    /// The predicate that selects the tasks to update.
    pub fn predicate(&self) -> (r: TaskPredicate)
        ensures
            r == self.spec_predicate(),
    {
        build_search_predicate(
            self.query.clone(),
            self.status_filter,
            self.priority_filter,
            self.due_date_filter,
        )
    }

    /// The partial update applied to each selected task.
    pub fn update(&self) -> (r: UpdateTaskRequest)
        ensures
            r == self.spec_update(),
    {
        UpdateTaskRequest { due_date: self.due_date, priority: self.priority, status: self.status }
    }
}

/// `t` with the supplied fields of `u` written over it; everything else kept.
pub open spec fn updated_task(t: Task, u: UpdateTaskRequest) -> Task {
    Task {
        id: t.id,
        name: t.name,
        priority: match u.priority {
            Some(p) => p,
            None => t.priority,
        },
        status: match u.status {
            Some(s) => s,
            None => t.status,
        },
        due_date: match u.due_date {
            Some(_) => stored_due_date(u.due_date),
            None => t.due_date,
        },
        created_at: t.created_at,
        deleted: t.deleted,
    }
}

/// Writes the supplied fields of `u` over `t`.
pub fn apply_update(t: &mut Task, u: &UpdateTaskRequest)
    ensures
        *final(t) == updated_task(*old(t), *u),
{
    match u.priority {
        Some(p) => {
            t.priority = p;
        },
        None => {},
    }
    match u.status {
        Some(s) => {
            t.status = s;
        },
        None => {},
    }
    match u.due_date {
        Some(_) => {
            t.due_date = convert_due_date(u.due_date);
        },
        None => {},
    }
}

/// A search by due date selects exactly the visible tasks whose stored due
/// instant lies within that UTC day: at or after its midnight and before the
/// next one.
pub proof fn lemma_due_date_day_boundary(d: CivilDate, t: Task)
    requires
        t.is_visible(),
    ensures
        spec_search_predicate(None, None, None, Some(d)).spec_matches(t) <==> (t.due_date matches Some(
            due,
        ) && midnight_millis(d) <= due.millis < midnight_millis(d) + MILLIS_PER_DAY),
{
    assert(i64::MIN <= midnight_millis(d) <= i64::MAX - MILLIS_PER_DAY) by (nonlinear_arith)
        requires
            midnight_millis(d) == (d.days_from_ce - 719_163) * 86_400_000,
            i32::MIN <= d.days_from_ce <= i32::MAX,
    ;
}

/// A partial update changes only the fields it supplies: id, name, creation
/// time and deletion marker always stay, and each absent field keeps its value.
pub proof fn lemma_partial_update_preserves(t: Task, u: UpdateTaskRequest)
    ensures
        updated_task(t, u).id == t.id,
        updated_task(t, u).name == t.name,
        updated_task(t, u).created_at == t.created_at,
        updated_task(t, u).deleted == t.deleted,
        u.status is None ==> updated_task(t, u).status == t.status,
        u.priority is None ==> updated_task(t, u).priority == t.priority,
        u.due_date is None ==> updated_task(t, u).due_date == t.due_date,
        u.status matches Some(s) ==> updated_task(t, u).status == s,
        u.priority matches Some(p) ==> updated_task(t, u).priority == p,
        u.due_date is Some ==> updated_task(t, u).due_date == stored_due_date(u.due_date),
{
}

} // verus!

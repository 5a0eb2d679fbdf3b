use vstd::prelude::*;
use crate::ids::{get_next_id_for_collection, get_next_id_range_for_collection, Counters};
use crate::model::{
    convert_due_date, stored_due_date, BulkCreateTaskRequest, CreateTaskRequest, DbError,
    ETaskPriority, ETaskStatus, SearchAndUpdateRequest, Task, TaskSearchParams, Timestamp,
    UpdateTaskRequest,
};
use crate::predicate::{apply_update, updated_task, TaskPredicate};
use crate::text::{trim, trimmed};

verus! {

/// The name of the task collection, which is also the name of its id sequence.
pub const COLLECTION_NAME: &'static str = "tasks";

/// The visible tasks of a collection, in stored order.
pub open spec fn visible_tasks(tasks: Seq<Task>) -> Seq<Task> {
    tasks.filter(|t: Task| t.is_visible())
}

/// The tasks of a collection that satisfy `p`, in stored order.
pub open spec fn matching_tasks(tasks: Seq<Task>, p: TaskPredicate) -> Seq<Task> {
    tasks.filter(|t: Task| p.spec_matches(t))
}

/// Whether the collection holds a visible task with the given id.
pub open spec fn has_visible_id(tasks: Seq<Task>, id: i64) -> bool {
    exists|i: int| 0 <= i < tasks.len() && tasks[i].id == id && tasks[i].is_visible()
}

/// Whether a name is rejected: empty once surrounding whitespace is removed.
pub open spec fn is_blank_name(name: Seq<char>) -> bool {
    trimmed(name).len() == 0
}

/// The record stored for a creation request: defaults for absent fields,
/// the given id and creation time, visible.
pub open spec fn created_task(req: CreateTaskRequest, id: int, now: Timestamp) -> Task {
    Task {
        id: id as i64,
        name: req.name,
        priority: match req.priority {
            Some(p) => p,
            None => ETaskPriority::Normal,
        },
        status: match req.status {
            Some(s) => s,
            None => ETaskStatus::NotStarted,
        },
        due_date: stored_due_date(req.due_date),
        created_at: now,
        deleted: Some(false),
    }
}

/// `t` marked as deleted.
pub open spec fn soft_deleted(t: Task) -> Task {
    Task { deleted: Some(true), ..t }
}

/// The collection after soft-deleting the visible task with the given id.
pub open spec fn after_soft_delete(tasks: Seq<Task>, id: i64) -> Seq<Task> {
    Seq::new(
        tasks.len(),
        |i: int|
            if tasks[i].id == id && tasks[i].is_visible() {
                soft_deleted(tasks[i])
            } else {
                tasks[i]
            },
    )
}

/// Whether a task is hit by a bulk soft delete of the given status.
pub open spec fn deleted_by_status(t: Task, status: ETaskStatus) -> bool {
    t.is_visible() && t.status == status
}

/// The collection after soft-deleting every visible task with the given status.
pub open spec fn after_status_delete(tasks: Seq<Task>, status: ETaskStatus) -> Seq<Task> {
    Seq::new(
        tasks.len(),
        |i: int|
            if deleted_by_status(tasks[i], status) {
                soft_deleted(tasks[i])
            } else {
                tasks[i]
            },
    )
}

/// The collection after applying `u` to the visible task with the given id.
pub open spec fn after_update_by_id(tasks: Seq<Task>, id: i64, u: UpdateTaskRequest) -> Seq<Task> {
    Seq::new(
        tasks.len(),
        |i: int|
            if tasks[i].id == id && tasks[i].is_visible() {
                updated_task(tasks[i], u)
            } else {
                tasks[i]
            },
    )
}

/// The collection after applying `u` to every task that satisfies `p`.
pub open spec fn after_update_matching(
    tasks: Seq<Task>,
    p: TaskPredicate,
    u: UpdateTaskRequest,
) -> Seq<Task> {
    Seq::new(
        tasks.len(),
        |i: int|
            if p.spec_matches(tasks[i]) {
                updated_task(tasks[i], u)
            } else {
                tasks[i]
            },
    )
}

/// The records of a collection whose ids are distinct and were all handed
/// out by a sequence now at `last_id`.
pub open spec fn ids_well_formed(tasks: Seq<Task>, last_id: int) -> bool {
    &&& forall|i: int| 0 <= i < tasks.len() ==> 1 <= #[trigger] tasks[i].id <= last_id
    &&& forall|i: int, j: int|
        0 <= i < tasks.len() && 0 <= j < tasks.len() && i != j ==> #[trigger] tasks[i].id
            != #[trigger] tasks[j].id
}

/// The stored tasks for a batch, the `k`-th request under id `start_id + k`,
/// all with the same creation time; refused where the last id would not fit.
pub fn tasks_from_requests(
    reqs: &Vec<CreateTaskRequest>,
    start_id: i64,
    now: Timestamp,
) -> (r: Result<Vec<Task>, DbError>)
    ensures
        start_id + reqs@.len() - 1 > i64::MAX ==> r == Err::<Vec<Task>, DbError>(
            DbError::IdSpaceExhausted,
        ),
        start_id + reqs@.len() - 1 <= i64::MAX ==> (r matches Ok(v) && v@.len() == reqs@.len() && (
        forall|k: int|
            0 <= k < reqs@.len() ==> #[trigger] v@[k] == created_task(reqs@[k], start_id + k, now))),
{
    let n = reqs.len();
    if start_id as i128 + n as i128 - 1 > i64::MAX as i128 {
        return Err(DbError::IdSpaceExhausted);
    }
    let mut out: Vec<Task> = Vec::new();
    let mut i: usize = 0;
    while i < n
        invariant
            n == reqs@.len(),
            i <= n,
            start_id + n - 1 <= i64::MAX,
            out@.len() == i,
            forall|j: int|
                0 <= j < i ==> #[trigger] out@[j] == created_task(reqs@[j], start_id + j, now),
        decreases n - i,
    {
        let id = (start_id as i128 + i as i128) as i64;
        out.push(task_from_request(&reqs[i], id, now));
        i = i + 1;
    }
    Ok(out)
}

/// Replacing records by records with the same ids keeps the ids well formed.
proof fn lemma_same_ids_well_formed(before: Seq<Task>, after: Seq<Task>, last_id: int)
    requires
        ids_well_formed(before, last_id),
        before.len() == after.len(),
        forall|k: int| 0 <= k < before.len() ==> #[trigger] after[k].id == before[k].id,
    ensures
        ids_well_formed(after, last_id),
{
    assert forall|i: int, j: int|
        0 <= i < after.len() && 0 <= j < after.len() && i != j implies #[trigger] after[i].id
        != #[trigger] after[j].id by {
        assert(after[i].id == before[i].id);
        assert(after[j].id == before[j].id);
    }
    assert forall|i: int| 0 <= i < after.len() implies 1 <= #[trigger] after[i].id <= last_id by {
        assert(after[i].id == before[i].id);
    }
}

/// The tasks of `tasks` that satisfy `p`, in order.
fn collect_matching(tasks: &Vec<Task>, p: &TaskPredicate) -> (r: Vec<Task>)
    ensures
        r@ == matching_tasks(tasks@, *p),
{
    let mut out: Vec<Task> = Vec::new();
    let mut i: usize = 0;
    while i < tasks.len()
        invariant
            i <= tasks@.len(),
            out@ == matching_tasks(tasks@.subrange(0, i as int), *p),
        decreases tasks.len() - i,
    {
        let t = &tasks[i];
        if p.matches(t) {
            out.push(t.duplicate());
        }
        proof {
            reveal(Seq::filter);
            assert(tasks@.subrange(0, i + 1).drop_last() =~= tasks@.subrange(0, i as int));
        }
        i = i + 1;
    }
    assert(tasks@.subrange(0, i as int) =~= tasks@);
    out
}

/// Whether a name is blank: empty once surrounding whitespace is removed.
pub fn name_is_blank(name: &str) -> (r: bool)
    ensures
        r == is_blank_name(name@),
{
    let trimmed_name = trim(name);
    trimmed_name.as_str().unicode_len() == 0
}

/// Whether any request of the batch has a blank name.
pub fn has_blank_name(reqs: &Vec<CreateTaskRequest>) -> (r: bool)
    ensures
        r == exists|k: int| 0 <= k < reqs@.len() && is_blank_name(#[trigger] reqs@[k].name@),
{
    let mut k: usize = 0;
    while k < reqs.len()
        invariant
            k <= reqs@.len(),
            forall|j: int| 0 <= j < k ==> !is_blank_name(#[trigger] reqs@[j].name@),
        decreases reqs.len() - k,
    {
        if name_is_blank(reqs[k].name.as_str()) {
            return true;
        }
        k = k + 1;
    }
    false
}

/// The stored task for a creation request, under the given id and creation time.
pub fn task_from_request(req: &CreateTaskRequest, id: i64, now: Timestamp) -> (r: Task)
    ensures
        r == created_task(*req, id as int, now),
{
    Task {
        id,
        name: req.name.clone(),
        priority: match req.priority {
            Some(p) => p,
            None => ETaskPriority::Normal,
        },
        status: match req.status {
            Some(s) => s,
            None => ETaskStatus::NotStarted,
        },
        due_date: convert_due_date(req.due_date),
        created_at: now,
        deleted: Some(false),
    }
}

/// The task collection with its id sequence. Records are never removed:
/// deletion only marks them, and ids are never handed out twice.
pub struct TaskRepository {
    tasks: Vec<Task>,
    counters: Counters,
}

impl TaskRepository {
    /// Every stored record, deleted ones included, in insertion order.
    pub closed spec fn records(self) -> Seq<Task> {
        self.tasks@
    }

    /// The last id handed out to a task (0 before the first).
    pub closed spec fn last_id(self) -> int {
        self.counters.value(COLLECTION_NAME@)
    }

    pub closed spec fn wf(self) -> bool {
        &&& self.counters.wf()
        &&& ids_well_formed(self.tasks@, self.last_id())
    }

    /// An empty collection whose id sequence has not been used.
    pub fn new() -> (r: TaskRepository)
        ensures
            r.wf(),
            r.records() == Seq::<Task>::empty(),
            r.last_id() == 0,
    {
        TaskRepository { tasks: Vec::new(), counters: Counters::new() }
    }

    /// All visible tasks.
    pub fn find_all(&self) -> (r: Vec<Task>)
        requires
            self.wf(),
        ensures
            r@ == visible_tasks(self.records()),
    {
        let everything = TaskPredicate {
            name_contains: None,
            status: None,
            priority: None,
            due_within: None,
        };
        let r = collect_matching(&self.tasks, &everything);
        assert((|t: Task| everything.spec_matches(t)) =~= (|t: Task| t.is_visible()));
        r
    }

    /// The visible task with the given id; `None` where there is none, also
    /// where a task with that id was deleted.
    pub fn find_by_id(&self, id: i64) -> (r: Option<Task>)
        requires
            self.wf(),
        ensures
            match r {
                Some(t) => t.id == id && t.is_visible() && self.records().contains(t),
                None => !has_visible_id(self.records(), id),
            },
    {
        let mut i: usize = 0;
        while i < self.tasks.len()
            invariant
                i <= self.tasks@.len(),
                forall|k: int|
                    0 <= k < i ==> !(self.tasks@[k].id == id && self.tasks@[k].is_visible()),
            decreases self.tasks.len() - i,
        {
            let t = &self.tasks[i];
            if t.id == id && t.deleted != Some(true) {
                return Some(t.duplicate());
            }
            i = i + 1;
        }
        None
    }

    /// The stored record with the given id, deleted or not.
    pub fn find_record(&self, id: i64) -> (r: Option<Task>)
        requires
            self.wf(),
        ensures
            match r {
                Some(t) => t.id == id && self.records().contains(t),
                None => forall|i: int| 0 <= i < self.records().len() ==> self.records()[i].id != id,
            },
    {
        let mut i: usize = 0;
        while i < self.tasks.len()
            invariant
                i <= self.tasks@.len(),
                forall|k: int| 0 <= k < i ==> self.tasks@[k].id != id,
            decreases self.tasks.len() - i,
        {
            if self.tasks[i].id == id {
                return Some(self.tasks[i].duplicate());
            }
            i = i + 1;
        }
        None
    }

    /// Every record has its own id, at least 1 and at most the last id handed
    /// out, so an id is never given to two records.
    pub proof fn lemma_ids_unique(self)
        requires
            self.wf(),
        ensures
            ids_well_formed(self.records(), self.last_id()),
    {
    }

    /// The visible task with the given id, by position.
    fn visible_position(&self, id: i64) -> (r: Option<usize>)
        requires
            self.wf(),
        ensures
            match r {
                Some(i) => i < self.tasks@.len() && self.tasks@[i as int].id == id
                    && self.tasks@[i as int].is_visible(),
                None => !has_visible_id(self.tasks@, id),
            },
    {
        let mut i: usize = 0;
        while i < self.tasks.len()
            invariant
                i <= self.tasks@.len(),
                forall|k: int|
                    0 <= k < i ==> !(self.tasks@[k].id == id && self.tasks@[k].is_visible()),
            decreases self.tasks.len() - i,
        {
            if self.tasks[i].id == id && self.tasks[i].deleted != Some(true) {
                return Some(i);
            }
            i = i + 1;
        }
        None
    }

    /// Stores one new task under the next id of the sequence. A blank name is
    /// rejected before any id is spent.
    pub fn create_task(&mut self, new_task: CreateTaskRequest, now: Timestamp) -> (r: Result<
        Task,
        DbError,
    >)
        requires
            old(self).wf(),
        ensures
            final(self).wf(),
            is_blank_name(new_task.name@) ==> {
                &&& r == Err::<Task, DbError>(DbError::EmptyName)
                &&& final(self).records() == old(self).records()
                &&& final(self).last_id() == old(self).last_id()
            },
            !is_blank_name(new_task.name@) && old(self).last_id() >= i64::MAX ==> {
                &&& r == Err::<Task, DbError>(DbError::IdSpaceExhausted)
                &&& final(self).records() == old(self).records()
                &&& final(self).last_id() == old(self).last_id()
            },
            !is_blank_name(new_task.name@) && old(self).last_id() < i64::MAX ==> {
                let t = created_task(new_task, old(self).last_id() + 1, now);
                &&& r == Ok::<Task, DbError>(t)
                &&& final(self).records() == old(self).records().push(t)
                &&& final(self).last_id() == old(self).last_id() + 1
            },
    {
        if name_is_blank(new_task.name.as_str()) {
            return Err(DbError::EmptyName);
        }
        let ghost old_last = self.last_id();
        proof {
            self.counters.lemma_value_nonnegative(COLLECTION_NAME@);
        }
        let id = match get_next_id_for_collection(&mut self.counters, COLLECTION_NAME) {
            Ok(id) => id,
            Err(e) => {
                return Err(e);
            },
        };
        let task = task_from_request(&new_task, id, now);
        self.tasks.push(task.duplicate());
        assert forall|i: int, j: int|
            0 <= i < self.tasks@.len() && 0 <= j < self.tasks@.len() && i != j implies #[trigger] self.tasks@[i].id
            != #[trigger] self.tasks@[j].id by {
            assert(self.tasks@[i].id <= old_last || i == self.tasks@.len() - 1);
            assert(self.tasks@[j].id <= old_last || j == self.tasks@.len() - 1);
        }
        Ok(task)
    }

    /// Stores a batch of tasks under one contiguous range of ids, given in
    /// input order, all with the same creation time. An empty batch spends no
    /// id; a blank name anywhere rejects the whole batch.
    pub fn bulk_create_tasks(
        &mut self,
        bulk_request: BulkCreateTaskRequest,
        now: Timestamp,
    ) -> (r: Result<Vec<Task>, DbError>)
        requires
            old(self).wf(),
        ensures
            final(self).wf(),
            ({
                let reqs = bulk_request.tasks@;
                let n = reqs.len() as int;
                if n == 0 {
                    &&& r matches Ok(v) && v@.len() == 0
                    &&& final(self).records() == old(self).records()
                    &&& final(self).last_id() == old(self).last_id()
                } else if exists|k: int| 0 <= k < n && is_blank_name(#[trigger] reqs[k].name@) {
                    &&& r == Err::<Vec<Task>, DbError>(DbError::EmptyName)
                    &&& final(self).records() == old(self).records()
                    &&& final(self).last_id() == old(self).last_id()
                } else if old(self).last_id() + n > i64::MAX {
                    &&& r == Err::<Vec<Task>, DbError>(DbError::IdSpaceExhausted)
                    &&& final(self).records() == old(self).records()
                    &&& final(self).last_id() == old(self).last_id()
                } else {
                    &&& r matches Ok(v) && v@.len() == n && (forall|k: int|
                        0 <= k < n ==> #[trigger] v@[k] == created_task(
                            reqs[k],
                            old(self).last_id() + 1 + k,
                            now,
                        )) && final(self).records() == old(self).records() + v@
                    &&& final(self).last_id() == old(self).last_id() + n
                }
            }),
    {
        let reqs = &bulk_request.tasks;
        let n = reqs.len();
        if n == 0 {
            return Ok(Vec::new());
        }
        if has_blank_name(reqs) {
            return Err(DbError::EmptyName);
        }
        proof {
            self.counters.lemma_value_nonnegative(COLLECTION_NAME@);
        }
        if n as u64 > i64::MAX as u64 {
            return Err(DbError::IdSpaceExhausted);
        }
        let ghost old_tasks = self.tasks@;
        let ghost old_last = self.last_id();
        let start = match get_next_id_range_for_collection(
            &mut self.counters,
            COLLECTION_NAME,
            n as i64,
        ) {
            Ok(start) => start,
            Err(e) => {
                return Err(e);
            },
        };
        let mut created: Vec<Task> = Vec::new();
        let mut i: usize = 0;
        while i < n
            invariant
                n == reqs@.len(),
                i <= n,
                start == old_last + 1,
                old_last >= 0,
                old_last + n <= i64::MAX,
                self.counters.wf(),
                self.last_id() == old_last + n,
                self.tasks@ == old_tasks + created@,
                ids_well_formed(old_tasks, old_last),
                created@.len() == i,
                forall|j: int|
                    0 <= j < i ==> #[trigger] created@[j] == created_task(
                        reqs@[j],
                        old_last + 1 + j,
                        now,
                    ),
            decreases n - i,
        {
            let task = task_from_request(&reqs[i], start + i as i64, now);
            self.tasks.push(task.duplicate());
            created.push(task);
            i = i + 1;
        }
        assert forall|p: int| 0 <= p < self.tasks@.len() implies 1 <= #[trigger] self.tasks@[p].id
            <= self.last_id() by {
            if p >= old_tasks.len() {
                assert(self.tasks@[p] == created@[p - old_tasks.len()]);
            }
        }
        assert forall|p: int, q: int|
            0 <= p < self.tasks@.len() && 0 <= q < self.tasks@.len() && p != q implies #[trigger] self.tasks@[p].id
            != #[trigger] self.tasks@[q].id by {
            if p >= old_tasks.len() {
                assert(self.tasks@[p] == created@[p - old_tasks.len()]);
            }
            if q >= old_tasks.len() {
                assert(self.tasks@[q] == created@[q - old_tasks.len()]);
            }
        }
        Ok(created)
    }

    /// The visible tasks that satisfy the search parameters.
    pub fn search_task(&self, params: TaskSearchParams) -> (r: Vec<Task>)
        requires
            self.wf(),
        ensures
            r@ == matching_tasks(self.records(), params.spec_predicate()),
    {
        let p = params.predicate();
        collect_matching(&self.tasks, &p)
    }

    /// Marks the visible task with the given id as deleted; the record stays.
    /// Returns whether such a task existed.
    pub fn soft_delete_by_id(&mut self, id: i64) -> (r: bool)
        requires
            old(self).wf(),
        ensures
            final(self).wf(),
            r == has_visible_id(old(self).records(), id),
            final(self).records() == after_soft_delete(old(self).records(), id),
            final(self).last_id() == old(self).last_id(),
    {
        match self.visible_position(id) {
            Some(i) => {
                let ghost before = self.tasks@;
                let mut t = self.tasks[i].duplicate();
                t.deleted = Some(true);
                self.tasks.set(i, t);
                assert(self.tasks@ =~= after_soft_delete(before, id));
                true
            },
            None => {
                assert(self.tasks@ =~= after_soft_delete(self.tasks@, id));
                false
            },
        }
    }

    /// Writes the supplied fields over the visible task with the given id and
    /// returns it as updated. An update without fields is rejected.
    pub fn update_task_by_id(&mut self, id: i64, update_request: UpdateTaskRequest) -> (r: Result<
        Option<Task>,
        DbError,
    >)
        requires
            old(self).wf(),
        ensures
            final(self).wf(),
            final(self).last_id() == old(self).last_id(),
            update_request.spec_is_empty() ==> {
                &&& r == Err::<Option<Task>, DbError>(DbError::NoUpdateFields)
                &&& final(self).records() == old(self).records()
            },
            !update_request.spec_is_empty() && !has_visible_id(old(self).records(), id) ==> {
                &&& r == Ok::<Option<Task>, DbError>(None)
                &&& final(self).records() == old(self).records()
            },
            !update_request.spec_is_empty() && has_visible_id(old(self).records(), id) ==> {
                &&& r matches Ok(Some(t)) && exists|i: int|
                    0 <= i < old(self).records().len() && old(self).records()[i].id == id
                        && old(self).records()[i].is_visible() && t == updated_task(
                        old(self).records()[i],
                        update_request,
                    )
                &&& final(self).records() == after_update_by_id(
                    old(self).records(),
                    id,
                    update_request,
                )
            },
    {
        if update_request.is_empty() {
            return Err(DbError::NoUpdateFields);
        }
        match self.visible_position(id) {
            Some(i) => {
                let ghost before = self.tasks@;
                let mut t = self.tasks[i].duplicate();
                apply_update(&mut t, &update_request);
                let result = t.duplicate();
                self.tasks.set(i, t);
                assert(self.tasks@ =~= after_update_by_id(before, id, update_request));
                Ok(Some(result))
            },
            None => Ok(None),
        }
    }

    /// Marks every visible task with the given status as deleted and returns
    /// how many were marked.
    pub fn bulk_soft_delete_by_status(&mut self, status: ETaskStatus) -> (r: u64)
        requires
            old(self).wf(),
        ensures
            final(self).wf(),
            r == old(self).records().filter(|t: Task| deleted_by_status(t, status)).len(),
            final(self).records() == after_status_delete(old(self).records(), status),
            final(self).last_id() == old(self).last_id(),
    {
        let ghost before = self.tasks@;
        let ghost counters = self.counters;
        let n = self.tasks.len();
        let mut count: u64 = 0;
        let mut i: usize = 0;
        while i < n
            invariant
                n == before.len() == self.tasks@.len(),
                i <= n,
                self.counters == counters,
                count == before.subrange(0, i as int).filter(
                    |t: Task| deleted_by_status(t, status),
                ).len(),
                count <= i,
                forall|k: int|
                    0 <= k < i ==> #[trigger] self.tasks@[k] == (if deleted_by_status(
                        before[k],
                        status,
                    ) {
                        soft_deleted(before[k])
                    } else {
                        before[k]
                    }),
                forall|k: int| i <= k < n ==> #[trigger] self.tasks@[k] == before[k],
            decreases n - i,
        {
            let hit = self.tasks[i].status == status && self.tasks[i].deleted != Some(true);
            if hit {
                let mut t = self.tasks[i].duplicate();
                t.deleted = Some(true);
                self.tasks.set(i, t);
                count = count + 1;
            }
            proof {
                reveal(Seq::filter);
                assert(before.subrange(0, i + 1).drop_last() =~= before.subrange(0, i as int));
                before.subrange(0, i as int).lemma_filter_len(|t: Task| deleted_by_status(t, status));
            }
            i = i + 1;
        }
        assert(before.subrange(0, n as int) =~= before);
        assert(self.tasks@ =~= after_status_delete(before, status));
        proof {
            lemma_same_ids_well_formed(before, self.tasks@, self.last_id());
        }
        count
    }

    /// Applies the supplied fields to every task that the search part of the
    /// request selects, then returns the tasks that the same search selects
    /// afterwards. A task whose update moves it out of the search is updated
    /// but not returned. An update without fields is rejected.
    pub fn search_and_update_tasks(&mut self, request: SearchAndUpdateRequest) -> (r: Result<
        Vec<Task>,
        DbError,
    >)
        requires
            old(self).wf(),
        ensures
            final(self).wf(),
            final(self).last_id() == old(self).last_id(),
            request.spec_update().spec_is_empty() ==> {
                &&& r == Err::<Vec<Task>, DbError>(DbError::NoUpdateFields)
                &&& final(self).records() == old(self).records()
            },
            !request.spec_update().spec_is_empty() ==> {
                &&& final(self).records() == after_update_matching(
                    old(self).records(),
                    request.spec_predicate(),
                    request.spec_update(),
                )
                &&& r matches Ok(v) && v@ == matching_tasks(
                    final(self).records(),
                    request.spec_predicate(),
                )
            },
    {
        let update = request.update();
        if update.is_empty() {
            return Err(DbError::NoUpdateFields);
        }
        let p = request.predicate();
        let ghost before = self.tasks@;
        let ghost counters = self.counters;
        let n = self.tasks.len();
        let mut i: usize = 0;
        while i < n
            invariant
                n == before.len() == self.tasks@.len(),
                i <= n,
                self.counters == counters,
                forall|k: int|
                    0 <= k < i ==> #[trigger] self.tasks@[k] == (if p.spec_matches(before[k]) {
                        updated_task(before[k], update)
                    } else {
                        before[k]
                    }),
                forall|k: int| i <= k < n ==> #[trigger] self.tasks@[k] == before[k],
            decreases n - i,
        {
            if p.matches(&self.tasks[i]) {
                let mut t = self.tasks[i].duplicate();
                apply_update(&mut t, &update);
                self.tasks.set(i, t);
            }
            i = i + 1;
        }
        assert(self.tasks@ =~= after_update_matching(before, p, update));
        proof {
            lemma_same_ids_well_formed(before, self.tasks@, self.last_id());
        }
        Ok(collect_matching(&self.tasks, &p))
    }
}

/// Once a created task is soft-deleted, no lookup by id, listing or search
/// returns it, yet its record is kept, marked as deleted.
pub proof fn lemma_created_then_deleted_is_hidden(
    tasks: Seq<Task>,
    req: CreateTaskRequest,
    id: i64,
    now: Timestamp,
    p: TaskPredicate,
)
    ensures
        ({
            let created = tasks.push(created_task(req, id as int, now));
            let after = after_soft_delete(created, id);
            &&& !has_visible_id(after, id)
            &&& forall|t: Task| visible_tasks(after).contains(t) ==> t.id != id
            &&& forall|t: Task| matching_tasks(after, p).contains(t) ==> t.id != id
            &&& after.len() == created.len()
            &&& after[tasks.len() as int] == soft_deleted(created_task(req, id as int, now))
            &&& after[tasks.len() as int].deleted == Some(true)
        }),
{
    let created = tasks.push(created_task(req, id as int, now));
    let after = after_soft_delete(created, id);
    assert(created[tasks.len() as int] == created_task(req, id as int, now));
    let visible = |t: Task| t.is_visible();
    let selected = |t: Task| p.spec_matches(t);
    assert forall|t: Task| visible_tasks(after).contains(t) implies t.id != id by {
        let f = after.filter(visible);
        after.lemma_filter_contains_rev(visible, t);
        let i = choose|i: int| 0 <= i < f.len() && #[trigger] f[i] == t;
        after.lemma_filter_pred(visible, i);
        let j = choose|j: int| 0 <= j < after.len() && #[trigger] after[j] == t;
    }
    assert forall|t: Task| matching_tasks(after, p).contains(t) implies t.id != id by {
        let f = after.filter(selected);
        after.lemma_filter_contains_rev(selected, t);
        let i = choose|i: int| 0 <= i < f.len() && #[trigger] f[i] == t;
        after.lemma_filter_pred(selected, i);
        let j = choose|j: int| 0 <= j < after.len() && #[trigger] after[j] == t;
    }
}

/// A batch created on a fresh collection gets the ids `1 ..= n` in input
/// order, each task keeping its own name, and one shared creation time.
pub proof fn lemma_fresh_bulk_ids(reqs: Seq<CreateTaskRequest>, now: Timestamp)
    requires
        reqs.len() <= i64::MAX,
    ensures
        forall|k: int|
            0 <= k < reqs.len() ==> {
                &&& (#[trigger] created_task(reqs[k], 0 + 1 + k, now)).id == k + 1
                &&& created_task(reqs[k], 0 + 1 + k, now).name == reqs[k].name
                &&& created_task(reqs[k], 0 + 1 + k, now).created_at == now
            },
{
}

} // verus!

use mindvault::dates::parse_date_literal;
use mindvault::model::{
    BulkCreateTaskRequest, CivilDate, CreateTaskRequest, DbError, ETaskPriority, ETaskStatus,
    SearchAndUpdateRequest, Task, TaskResponse, TaskSearchParams, Timestamp, UpdateTaskRequest,
};
use mindvault::predicate::build_search_predicate;
use mindvault::repository::{
    has_blank_name, name_is_blank, tasks_from_requests, TaskRepository,
};

const NOW: Timestamp = Timestamp { millis: 1_753_600_000_000 };

fn request(name: &str) -> CreateTaskRequest {
    CreateTaskRequest {
        name: name.to_string(),
        due_date: None,
        priority: None,
        status: None,
    }
}

fn search(query: Option<&str>) -> TaskSearchParams {
    TaskSearchParams {
        query: query.map(|q| q.to_string()),
        status: None,
        priority: None,
        due_date: None,
    }
}

fn date(s: &str) -> CivilDate {
    parse_date_literal(s).unwrap()
}

#[test]
fn create_applies_defaults() {
    let mut repo = TaskRepository::new();
    let t = repo.create_task(request("Write report"), NOW).unwrap();
    assert_eq!(t.id, 1);
    assert_eq!(t.name, "Write report");
    assert_eq!(t.priority, ETaskPriority::Normal);
    assert_eq!(t.status, ETaskStatus::NotStarted);
    assert_eq!(t.due_date, None);
    assert_eq!(t.created_at, NOW);
    assert_eq!(t.deleted, Some(false));
    assert_eq!(repo.create_task(request("Second"), NOW).unwrap().id, 2);
}

#[test]
fn create_rejects_blank_name_without_spending_an_id() {
    let mut repo = TaskRepository::new();
    assert_eq!(repo.create_task(request("   "), NOW).unwrap_err(), DbError::EmptyName);
    assert_eq!(repo.create_task(request(""), NOW).unwrap_err(), DbError::EmptyName);
    assert_eq!(repo.create_task(request("ok"), NOW).unwrap().id, 1);
    assert!(name_is_blank(" \t"));
    assert!(!name_is_blank(" a "));
}

#[test]
fn soft_deleted_task_is_hidden_but_kept() {
    let mut repo = TaskRepository::new();
    let x = repo.create_task(request("X"), NOW).unwrap();
    let other = repo.create_task(request("Y"), NOW).unwrap();
    assert!(repo.soft_delete_by_id(x.id));
    assert!(repo.find_by_id(x.id).is_none());
    let all: Vec<i64> = repo.find_all().iter().map(|t| t.id).collect();
    assert_eq!(all, vec![other.id]);
    assert!(repo.search_task(search(Some("X"))).is_empty());
    // a second delete finds nothing visible
    assert!(!repo.soft_delete_by_id(x.id));
    // the record is still there, marked as deleted, and its id is not handed out again
    let kept = repo.find_record(x.id).unwrap();
    assert_eq!(kept.name, "X");
    assert_eq!(kept.deleted, Some(true));
    assert!(repo.find_record(99).is_none());
    assert_eq!(repo.create_task(request("Z"), NOW).unwrap().id, 3);
}

#[test]
fn delete_of_unknown_id_is_false() {
    let mut repo = TaskRepository::new();
    assert!(!repo.soft_delete_by_id(42));
}

#[test]
fn partial_update_keeps_untouched_fields() {
    let mut repo = TaskRepository::new();
    let created = repo
        .create_task(
            CreateTaskRequest {
                name: "Plan".to_string(),
                due_date: None,
                priority: Some(ETaskPriority::High),
                status: Some(ETaskStatus::Pending),
            },
            NOW,
        )
        .unwrap();
    let d = date("2025-08-01");
    let updated = repo
        .update_task_by_id(
            created.id,
            UpdateTaskRequest { due_date: Some(d), priority: None, status: None },
        )
        .unwrap()
        .unwrap();
    assert_eq!(updated.priority, ETaskPriority::High);
    assert_eq!(updated.status, ETaskStatus::Pending);
    assert_eq!(updated.due_date, Some(d.midnight_utc()));
    assert_eq!(updated.name, "Plan");
    assert_eq!(updated.created_at, NOW);
    let stored = repo.find_by_id(created.id).unwrap();
    assert_eq!(stored.due_date, Some(d.midnight_utc()));
    assert_eq!(stored.priority, ETaskPriority::High);
}

#[test]
fn update_without_fields_is_a_validation_error() {
    let mut repo = TaskRepository::new();
    let t = repo.create_task(request("X"), NOW).unwrap();
    let empty = UpdateTaskRequest { due_date: None, priority: None, status: None };
    assert_eq!(repo.update_task_by_id(t.id, empty).unwrap_err(), DbError::NoUpdateFields);
    assert_eq!(repo.find_by_id(t.id).unwrap().status, ETaskStatus::NotStarted);
}

#[test]
fn update_of_missing_or_deleted_task_is_not_found() {
    let mut repo = TaskRepository::new();
    let t = repo.create_task(request("X"), NOW).unwrap();
    let u = UpdateTaskRequest { due_date: None, priority: None, status: Some(ETaskStatus::Completed) };
    assert!(repo.update_task_by_id(99, u).unwrap().is_none());
    repo.soft_delete_by_id(t.id);
    assert!(repo.update_task_by_id(t.id, u).unwrap().is_none());
}

#[test]
fn due_date_search_matches_one_utc_day() {
    let late = Task {
        id: 1,
        name: "late".to_string(),
        priority: ETaskPriority::Normal,
        status: ETaskStatus::NotStarted,
        due_date: Some(Timestamp { millis: 1_753_660_799_000 }), // 2025-07-27T23:59:59Z
        created_at: NOW,
        deleted: Some(false),
    };
    let next_day = build_search_predicate(None, None, None, Some(date("2025-07-28")));
    let same_day = build_search_predicate(None, None, None, Some(date("2025-07-27")));
    assert!(!next_day.matches(&late));
    assert!(same_day.matches(&late));
}

#[test]
fn due_date_search_through_repository() {
    let mut repo = TaskRepository::new();
    let mut req = request("dated");
    req.due_date = Some(date("2025-07-27"));
    repo.create_task(req, NOW).unwrap();
    repo.create_task(request("undated"), NOW).unwrap();
    let mut params = search(None);
    params.due_date = Some(date("2025-07-27"));
    let found: Vec<String> = repo.search_task(params).into_iter().map(|t| t.name).collect();
    assert_eq!(found, vec!["dated".to_string()]);
    let mut params = search(None);
    params.due_date = Some(date("2025-07-28"));
    assert!(repo.search_task(params).is_empty());
}

#[test]
fn bulk_create_assigns_consecutive_ids_in_order() {
    let mut repo = TaskRepository::new();
    let created = repo
        .bulk_create_tasks(
            BulkCreateTaskRequest { tasks: vec![request("A"), request("B"), request("C")] },
            NOW,
        )
        .unwrap();
    let ids: Vec<i64> = created.iter().map(|t| t.id).collect();
    let names: Vec<&str> = created.iter().map(|t| t.name.as_str()).collect();
    assert_eq!(ids, vec![1, 2, 3]);
    assert_eq!(names, vec!["A", "B", "C"]);
    assert!(created.iter().all(|t| t.created_at == NOW));
    assert_eq!(repo.find_all().len(), 3);
    assert_eq!(repo.create_task(request("D"), NOW).unwrap().id, 4);
}

#[test]
fn empty_bulk_create_spends_no_id() {
    let mut repo = TaskRepository::new();
    let created = repo.bulk_create_tasks(BulkCreateTaskRequest { tasks: vec![] }, NOW).unwrap();
    assert!(created.is_empty());
    assert_eq!(repo.create_task(request("first"), NOW).unwrap().id, 1);
}

#[test]
fn bulk_create_with_blank_name_is_rejected_whole() {
    let mut repo = TaskRepository::new();
    let result = repo.bulk_create_tasks(
        BulkCreateTaskRequest { tasks: vec![request("A"), request(" "), request("C")] },
        NOW,
    );
    assert_eq!(result.unwrap_err(), DbError::EmptyName);
    assert!(repo.find_all().is_empty());
    assert_eq!(repo.create_task(request("first"), NOW).unwrap().id, 1);
    assert!(has_blank_name(&vec![request("A"), request("")]));
    assert!(!has_blank_name(&vec![request("A")]));
}

#[test]
fn tasks_from_requests_numbers_from_start() {
    let tasks = tasks_from_requests(&vec![request("A"), request("B")], 10, NOW).unwrap();
    assert_eq!(tasks.iter().map(|t| t.id).collect::<Vec<_>>(), vec![10, 11]);
    assert_eq!(
        tasks_from_requests(&vec![request("A"), request("B")], i64::MAX, NOW).unwrap_err(),
        DbError::IdSpaceExhausted
    );
}

#[test]
fn search_is_case_insensitive_substring() {
    let mut repo = TaskRepository::new();
    repo.create_task(request("Write REPORT draft"), NOW).unwrap();
    repo.create_task(request("Call Bob"), NOW).unwrap();
    let found: Vec<String> =
        repo.search_task(search(Some("report"))).into_iter().map(|t| t.name).collect();
    assert_eq!(found, vec!["Write REPORT draft".to_string()]);
    let found: Vec<String> =
        repo.search_task(search(Some("ALL b"))).into_iter().map(|t| t.name).collect();
    assert_eq!(found, vec!["Call Bob".to_string()]);
    assert_eq!(repo.search_task(search(None)).len(), 2);
    assert!(repo.search_task(search(Some("missing"))).is_empty());
}

#[test]
fn search_combines_filters() {
    let mut repo = TaskRepository::new();
    let mut a = request("alpha");
    a.status = Some(ETaskStatus::Pending);
    a.priority = Some(ETaskPriority::High);
    let mut b = request("alpha two");
    b.status = Some(ETaskStatus::Pending);
    repo.create_task(a, NOW).unwrap();
    repo.create_task(b, NOW).unwrap();
    let mut params = search(Some("alpha"));
    params.status = Some(ETaskStatus::Pending);
    params.priority = Some(ETaskPriority::High);
    let found: Vec<i64> = repo.search_task(params).into_iter().map(|t| t.id).collect();
    assert_eq!(found, vec![1]);
}

#[test]
fn bulk_soft_delete_counts_visible_matches() {
    let mut repo = TaskRepository::new();
    for (name, status) in [
        ("a", ETaskStatus::Completed),
        ("b", ETaskStatus::Pending),
        ("c", ETaskStatus::Completed),
    ] {
        let mut r = request(name);
        r.status = Some(status);
        repo.create_task(r, NOW).unwrap();
    }
    repo.soft_delete_by_id(3);
    assert_eq!(repo.bulk_soft_delete_by_status(ETaskStatus::Completed), 1);
    assert_eq!(repo.bulk_soft_delete_by_status(ETaskStatus::Completed), 0);
    let left: Vec<String> = repo.find_all().into_iter().map(|t| t.name).collect();
    assert_eq!(left, vec!["b".to_string()]);
}

fn search_and_update(
    status_filter: Option<ETaskStatus>,
    status: Option<ETaskStatus>,
    priority: Option<ETaskPriority>,
) -> SearchAndUpdateRequest {
    SearchAndUpdateRequest {
        query: None,
        status_filter,
        priority_filter: None,
        due_date_filter: None,
        due_date: None,
        priority,
        status,
    }
}

#[test]
fn search_and_update_requeries_with_the_same_filter() {
    let mut repo = TaskRepository::new();
    let mut r = request("a");
    r.status = Some(ETaskStatus::Pending);
    repo.create_task(r, NOW).unwrap();
    repo.create_task(request("b"), NOW).unwrap();
    // the update moves the match out of its own filter: updated, not returned
    let out = repo
        .search_and_update_tasks(search_and_update(
            Some(ETaskStatus::Pending),
            Some(ETaskStatus::Completed),
            None,
        ))
        .unwrap();
    assert!(out.is_empty());
    assert_eq!(repo.find_by_id(1).unwrap().status, ETaskStatus::Completed);
    assert_eq!(repo.find_by_id(2).unwrap().status, ETaskStatus::NotStarted);
    // an update that keeps the filter true returns the updated tasks
    let out = repo
        .search_and_update_tasks(search_and_update(
            Some(ETaskStatus::Completed),
            None,
            Some(ETaskPriority::High),
        ))
        .unwrap();
    assert_eq!(out.len(), 1);
    assert_eq!(out[0].id, 1);
    assert_eq!(out[0].priority, ETaskPriority::High);
}

#[test]
fn search_and_update_without_fields_is_rejected() {
    let mut repo = TaskRepository::new();
    repo.create_task(request("a"), NOW).unwrap();
    assert_eq!(
        repo.search_and_update_tasks(search_and_update(None, None, None)).unwrap_err(),
        DbError::NoUpdateFields
    );
}

#[test]
fn responses_drop_the_deletion_marker() {
    let mut repo = TaskRepository::new();
    repo.bulk_create_tasks(BulkCreateTaskRequest { tasks: vec![request("A"), request("B")] }, NOW)
        .unwrap();
    let responses = TaskResponse::from_vec(repo.find_all());
    assert_eq!(responses.len(), 2);
    assert_eq!(responses[1].id, 2);
    assert_eq!(responses[1].name, "B");
    let one = TaskResponse::from(repo.find_by_id(1).unwrap());
    assert_eq!(one.name, "A");
    assert_eq!(one.created_at, NOW);
}

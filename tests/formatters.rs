use mindvault::config::MongoConfig;
use mindvault::formatters::{
    format_priority, format_status, parse_priority_literal, parse_status_literal,
    status_from_name, EnumFormatter,
};
use mindvault::model::{CivilDate, ETaskPriority, ETaskStatus};
use mindvault::params::{
    default_status, BulkCreateTaskParams, CreateTaskParams, DeleteTasksByStatusParams,
    SearchAndUpdateParams, SearchTasksParams, UpdateTaskByIdParams,
};

#[test]
fn status_literals_and_synonyms_any_case() {
    assert_eq!(parse_status_literal("Not Started"), Some(ETaskStatus::NotStarted));
    assert_eq!(parse_status_literal("NOTSTARTED"), Some(ETaskStatus::NotStarted));
    assert_eq!(parse_status_literal("pending"), Some(ETaskStatus::Pending));
    assert_eq!(parse_status_literal("InProgress"), Some(ETaskStatus::InProgress));
    assert_eq!(parse_status_literal("Done"), Some(ETaskStatus::Completed));
    assert_eq!(parse_status_literal("complete"), Some(ETaskStatus::Completed));
    assert_eq!(parse_status_literal("COMPLETED"), Some(ETaskStatus::Completed));
    assert_eq!(parse_status_literal("finished"), None);
}

#[test]
fn priority_literals_and_synonyms_any_case() {
    assert_eq!(parse_priority_literal("Urgent"), Some(ETaskPriority::High));
    assert_eq!(parse_priority_literal("high"), Some(ETaskPriority::High));
    assert_eq!(parse_priority_literal("LOW"), Some(ETaskPriority::Normal));
    assert_eq!(parse_priority_literal("normal"), Some(ETaskPriority::Normal));
    assert_eq!(parse_priority_literal("medium"), None);
}

#[test]
fn enum_formatter_on_optional_input() {
    let status: Option<ETaskStatus> = Some("done".to_string()).as_type();
    assert_eq!(status, Some(ETaskStatus::Completed));
    let priority: Option<ETaskPriority> = Some("URGENT".to_string()).as_type();
    assert_eq!(priority, Some(ETaskPriority::High));
    let none: Option<ETaskStatus> = None::<String>.as_type();
    assert_eq!(none, None);
}

#[test]
fn exact_status_names() {
    assert_eq!(status_from_name("NotStarted"), Some(ETaskStatus::NotStarted));
    assert_eq!(status_from_name("Pending"), Some(ETaskStatus::Pending));
    assert_eq!(status_from_name("InProgress"), Some(ETaskStatus::InProgress));
    assert_eq!(status_from_name("Completed"), Some(ETaskStatus::Completed));
    assert_eq!(status_from_name("pending"), None);
    assert_eq!(status_from_name("Done"), None);
}

#[test]
fn display_labels() {
    assert_eq!(format_status(&ETaskStatus::NotStarted), "🔴 Not Started");
    assert_eq!(format_status(&ETaskStatus::Pending), "🟡 Pending");
    assert_eq!(format_status(&ETaskStatus::InProgress), "🔵 In Progress");
    assert_eq!(format_status(&ETaskStatus::Completed), "✅ Completed");
    assert_eq!(format_priority(&ETaskPriority::Normal), "📝 Normal");
    assert_eq!(format_priority(&ETaskPriority::High), "🔥 High");
}

#[test]
fn enum_defaults() {
    assert_eq!(ETaskPriority::default(), ETaskPriority::Normal);
    assert_eq!(ETaskStatus::default(), ETaskStatus::NotStarted);
}

#[test]
fn connection_settings() {
    let config = MongoConfig::from_env();
    assert_eq!(config.uri, "mongodb://localhost:27017");
    assert_eq!(config.db_name, "mind_vault_v1");
}

#[test]
fn create_params_become_a_request() {
    let params = CreateTaskParams {
        name: "Ship".to_string(),
        due_date: Some("27-07-2025".to_string()),
        priority: Some("HIGH".to_string()),
        status: Some("done".to_string()),
    };
    let req = params.to_request();
    assert_eq!(req.name, "Ship");
    assert_eq!(req.due_date, Some(CivilDate { days_from_ce: 739_459 }));
    assert_eq!(req.priority, Some(ETaskPriority::High));
    assert_eq!(req.status, Some(ETaskStatus::Completed));
}

#[test]
fn unreadable_params_count_as_absent() {
    let params = UpdateTaskByIdParams {
        task_id: 3,
        status: Some("someday".to_string()),
        priority: None,
        due_date: Some("2025-07-27".to_string()),
    };
    let req = params.to_request();
    assert_eq!(req.status, None);
    assert_eq!(req.priority, None);
    assert_eq!(req.due_date, None);
}

#[test]
fn bulk_params_pair_up_to_the_shortest_list() {
    let params = BulkCreateTaskParams {
        names: vec!["A".to_string(), "B".to_string(), "C".to_string()],
        statuses: vec![Some("pending".to_string()), None],
        priorities: vec![None, Some("urgent".to_string()), None],
        due_dates: vec![None, Some("01-08-2025".to_string()), None],
    };
    let req = params.to_request();
    assert_eq!(req.tasks.len(), 2);
    assert_eq!(req.tasks[0].name, "A");
    assert_eq!(req.tasks[0].status, Some(ETaskStatus::Pending));
    assert_eq!(req.tasks[1].priority, Some(ETaskPriority::High));
    assert_eq!(req.tasks[1].due_date, Some(CivilDate { days_from_ce: 739_464 }));
}

#[test]
fn search_params_become_filters() {
    let params = SearchTasksParams {
        query: Some("report".to_string()),
        status: Some("in progress".to_string()),
        priority: Some("low".to_string()),
        due_date: None,
    };
    let req = params.to_request();
    assert_eq!(req.query, Some("report".to_string()));
    assert_eq!(req.status, None);
    assert_eq!(req.priority, Some(ETaskPriority::Normal));

    let params = SearchAndUpdateParams {
        query: None,
        status_filter: Some("pending".to_string()),
        priority_filter: None,
        due_date_filter: Some("27-07-2025".to_string()),
        status: Some("done".to_string()),
        priority: None,
        due_date: None,
    };
    let req = params.to_request();
    assert_eq!(req.status_filter, Some(ETaskStatus::Pending));
    assert_eq!(req.due_date_filter, Some(CivilDate { days_from_ce: 739_459 }));
    assert_eq!(req.status, Some(ETaskStatus::Completed));
}

#[test]
fn delete_by_status_params() {
    let params = DeleteTasksByStatusParams { status: Some("Complete".to_string()) };
    assert_eq!(params.to_status(), Some(ETaskStatus::Completed));
    let params = DeleteTasksByStatusParams { status: None };
    assert_eq!(params.to_status(), None);
}

#[test]
fn default_status_is_pending() {
    assert_eq!(default_status(), Some("pending".to_string()));
}

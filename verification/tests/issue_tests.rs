use ticket_manager::error::{DatabaseErrorKind, DbError};
use ticket_manager::handlers::api_response::{ApiResponse, Response};
use ticket_manager::handlers::issue::{
    create_issue, create_issue_with_status, delete_issue, get_project_issues, update_issue,
    update_issue_with_status, CreateIssueRequest, DeleteResponse, IssueResponse,
    UpdateIssueRequest,
};
use ticket_manager::models::{Issue, IssueChanges, NewIssue, Project};
use ticket_manager::store::{Query, Stage, Step, StoreEvent};

/// Hands a handler the events one after the other, as the service does, and
/// gives back what it asked for and what it answered.
fn exchange<T>(
    handler: impl Fn(Stage, StoreEvent) -> Step<T>,
    events: Vec<StoreEvent>,
) -> (Vec<Query>, Option<Response<T>>) {
    let mut stage = Stage::Connecting;
    let mut asked = Vec::new();
    for event in events {
        match handler(stage, event) {
            Step::Respond(response) => return (asked, Some(response)),
            Step::Ask { query, next } => {
                asked.push(query);
                stage = next;
            }
        }
    }
    (asked, None)
}

fn project(id: i32) -> Project {
    Project { id, name: format!("Test Project {}", id), description: "Test Description".to_string() }
}

fn issue(id: i32, project_id: i32) -> Issue {
    Issue {
        id,
        project_id,
        title: format!("Test Issue {}", id),
        description: "Test Description".to_string(),
        created_by: "test_user".to_string(),
        assigned_to: None,
        status: "open".to_string(),
        is_open: true,
    }
}

fn error_of<T>(response: &Response<T>) -> &str {
    match &response.body {
        ApiResponse::Error { error } => error.as_str(),
        ApiResponse::Success(_) => panic!("the answer is no failure"),
    }
}

fn no_changes() -> UpdateIssueRequest {
    UpdateIssueRequest { title: None, description: None, assigned_to: None, status: None, is_open: None }
}

#[test]
fn test_create_issue() {
    let payload = CreateIssueRequest {
        title: "Test Issue".to_string(),
        description: "This is a test issue".to_string(),
        created_by: "test_user".to_string(),
        assigned_to: Some("test_assignee".to_string()),
        status: Some("open".to_string()),
    };
    let stored = Issue {
        id: 1,
        project_id: 7,
        title: "Test Issue".to_string(),
        description: "This is a test issue".to_string(),
        created_by: "test_user".to_string(),
        assigned_to: Some("test_assignee".to_string()),
        status: "open".to_string(),
        is_open: true,
    };
    let (asked, response) = exchange(
        |stage, event| create_issue(stage, 7, &payload, event),
        vec![StoreEvent::Connected, StoreEvent::Project(project(7)), StoreEvent::Issue(stored)],
    );
    let response = response.unwrap();
    assert_eq!(response.status, 201);
    assert_eq!(
        asked,
        vec![
            Query::FindProject { id: 7 },
            Query::InsertIssue(NewIssue {
                project_id: 7,
                title: "Test Issue".to_string(),
                description: "This is a test issue".to_string(),
                created_by: "test_user".to_string(),
                assigned_to: Some("test_assignee".to_string()),
                status: "open".to_string(),
                is_open: true,
            }),
        ]
    );
    assert_eq!(
        response.body,
        ApiResponse::Success(IssueResponse {
            id: 1,
            project_id: 7,
            title: "Test Issue".to_string(),
            description: "This is a test issue".to_string(),
            created_by: "test_user".to_string(),
            assigned_to: Some("test_assignee".to_string()),
            status: "open".to_string(),
            is_open: true,
        })
    );
}

#[test]
fn test_get_project_issues() {
    let (asked, response) = exchange(
        |stage, event| get_project_issues(stage, 3, event),
        vec![
            StoreEvent::Connected,
            StoreEvent::Project(project(3)),
            StoreEvent::Issues(vec![issue(1, 3), issue(2, 3)]),
        ],
    );
    let response = response.unwrap();
    assert_eq!(response.status, 200);
    assert_eq!(asked, vec![Query::FindProject { id: 3 }, Query::IssuesOfProject { project_id: 3 }]);
    match response.body {
        ApiResponse::Success(list) => {
            assert_eq!(list.len(), 2);
            assert_eq!(list[0].id, 1);
            assert_eq!(list[0].title, "Test Issue 1");
            assert_eq!(list[1].id, 2);
            assert_eq!(list[1].project_id, 3);
            assert_eq!(list[1].created_by, "test_user");
            assert_eq!(list[1].assigned_to, None);
            assert!(list[1].is_open);
        }
        ApiResponse::Error { error } => panic!("unexpected failure: {}", error),
    }
}

#[test]
fn test_update_issue() {
    let payload = UpdateIssueRequest {
        title: Some("Updated Title".to_string()),
        description: Some("Updated Description".to_string()),
        assigned_to: None,
        status: Some("in_progress".to_string()),
        is_open: None,
    };
    let mut updated = issue(5, 2);
    updated.title = "Updated Title".to_string();
    updated.description = "Updated Description".to_string();
    updated.status = "in_progress".to_string();
    let (asked, response) = exchange(
        |stage, event| update_issue(stage, 2, 5, &payload, event),
        vec![
            StoreEvent::Connected,
            StoreEvent::Project(project(2)),
            StoreEvent::Issue(issue(5, 2)),
            StoreEvent::Issue(updated),
        ],
    );
    let response = response.unwrap();
    assert_eq!(response.status, 200);
    assert_eq!(
        asked,
        vec![
            Query::FindProject { id: 2 },
            Query::GetIssue { id: 5 },
            Query::UpdateIssue {
                id: 5,
                changes: IssueChanges {
                    title: Some("Updated Title".to_string()),
                    description: Some("Updated Description".to_string()),
                    assigned_to: None,
                    status: Some("in_progress".to_string()),
                    is_open: None,
                },
            },
        ]
    );
    match response.body {
        ApiResponse::Success(shown) => {
            assert_eq!(shown.title, "Updated Title");
            assert_eq!(shown.description, "Updated Description");
            assert_eq!(shown.status, "in_progress");
            assert!(shown.is_open);
        }
        ApiResponse::Error { error } => panic!("unexpected failure: {}", error),
    }
}

#[test]
fn test_delete_issue() {
    let (asked, response) = exchange(
        |stage, event| delete_issue(stage, 2, 5, event),
        vec![
            StoreEvent::Connected,
            StoreEvent::Project(project(2)),
            StoreEvent::Issue(issue(5, 2)),
            StoreEvent::Affected(1),
        ],
    );
    let response = response.unwrap();
    assert!(response.status == 204 || response.status == 200);
    assert_eq!(response.status, 200);
    assert_eq!(
        asked,
        vec![Query::FindProject { id: 2 }, Query::GetIssue { id: 5 }, Query::DeleteIssue { id: 5 }]
    );
    assert_eq!(
        response.body,
        ApiResponse::Success(DeleteResponse {
            success: true,
            message: "Issue 5 successfully deleted".to_string(),
        })
    );
}

#[test]
fn test_get_nonexistent_project_issues() {
    let (asked, response) = exchange(
        |stage, event| get_project_issues(stage, 999, event),
        vec![StoreEvent::Connected, StoreEvent::Failed(DbError::NotFound)],
    );
    let response = response.unwrap();
    assert_eq!(response.status, 404);
    assert_eq!(error_of(&response), "Project with ID 999 not found");
    assert_eq!(asked, vec![Query::FindProject { id: 999 }]);
}

#[test]
fn create_issue_under_missing_project_is_not_found_whatever_the_payload() {
    let payloads = vec![
        CreateIssueRequest {
            title: "Bug".to_string(),
            description: "x".to_string(),
            created_by: "alice".to_string(),
            assigned_to: None,
            status: None,
        },
        CreateIssueRequest {
            title: String::new(),
            description: String::new(),
            created_by: String::new(),
            assigned_to: Some("bob".to_string()),
            status: Some("no such status".to_string()),
        },
    ];
    for payload in payloads {
        let (asked, response) = exchange(
            |stage, event| create_issue(stage, -4, &payload, event),
            vec![StoreEvent::Connected, StoreEvent::Failed(DbError::NotFound)],
        );
        let response = response.unwrap();
        assert_eq!(response.status, 404);
        assert_eq!(error_of(&response), "Project with ID -4 not found");
        assert_eq!(asked, vec![Query::FindProject { id: -4 }]);
    }
}

#[test]
fn create_issue_with_unknown_status_is_refused() {
    for status in ["done", "", "open ", "in-progress", "OPENED"] {
        let payload = CreateIssueRequest {
            title: "Bug".to_string(),
            description: "x".to_string(),
            created_by: "alice".to_string(),
            assigned_to: None,
            status: Some(status.to_string()),
        };
        let (asked, response) = exchange(
            |stage, event| create_issue(stage, 1, &payload, event),
            vec![StoreEvent::Connected, StoreEvent::Project(project(1))],
        );
        let response = response.unwrap();
        assert_eq!(response.status, 400);
        assert_eq!(
            error_of(&response),
            "Invalid status value. Allowed values: [\"open\", \"in_progress\", \"resolved\", \"closed\"]"
        );
        assert_eq!(asked, vec![Query::FindProject { id: 1 }]);
    }
}

#[test]
fn create_issue_lowers_the_status_and_stores_the_issue_as_open() {
    for (sent, stored) in [
        ("OPEN", "open"),
        ("In_Progress", "in_progress"),
        ("resolved", "resolved"),
        ("CLOSED", "closed"),
    ] {
        let payload = CreateIssueRequest {
            title: "Bug".to_string(),
            description: "x".to_string(),
            created_by: "alice".to_string(),
            assigned_to: None,
            status: Some(sent.to_string()),
        };
        let step = create_issue(Stage::FindingProject, 1, &payload, StoreEvent::Project(project(1)));
        match step {
            Step::Ask { query: Query::InsertIssue(row), next } => {
                assert_eq!(next, Stage::Completing);
                assert_eq!(row.status, stored);
                assert!(row.is_open);
                assert_eq!(row.project_id, 1);
                assert_eq!(row.title, "Bug");
                assert_eq!(row.description, "x");
                assert_eq!(row.created_by, "alice");
                assert_eq!(row.assigned_to, None);
            }
            other => panic!("unexpected step: {:?}", other),
        }
    }
}

#[test]
fn create_issue_without_status_is_open() {
    let payload = CreateIssueRequest {
        title: "Bug".to_string(),
        description: "x".to_string(),
        created_by: "alice".to_string(),
        assigned_to: None,
        status: None,
    };
    let step = create_issue(Stage::FindingProject, 1, &payload, StoreEvent::Project(project(1)));
    assert_eq!(
        step,
        Step::Ask {
            query: Query::InsertIssue(NewIssue {
                project_id: 1,
                title: "Bug".to_string(),
                description: "x".to_string(),
                created_by: "alice".to_string(),
                assigned_to: None,
                status: "open".to_string(),
                is_open: true,
            }),
            next: Stage::Completing,
        }
    );
}

#[test]
fn update_issue_of_another_project_is_not_found() {
    let payload = UpdateIssueRequest { status: Some("closed".to_string()), ..no_changes() };
    let (asked, response) = exchange(
        |stage, event| update_issue(stage, 2, 5, &payload, event),
        vec![StoreEvent::Connected, StoreEvent::Project(project(2)), StoreEvent::Issue(issue(5, 3))],
    );
    let response = response.unwrap();
    assert_eq!(response.status, 404);
    assert_eq!(error_of(&response), "Issue does not belong to this project");
    assert_eq!(asked, vec![Query::FindProject { id: 2 }, Query::GetIssue { id: 5 }]);
}

#[test]
fn delete_issue_of_another_project_is_not_found() {
    let (asked, response) = exchange(
        |stage, event| delete_issue(stage, 2, 5, event),
        vec![StoreEvent::Connected, StoreEvent::Project(project(2)), StoreEvent::Issue(issue(5, 3))],
    );
    let response = response.unwrap();
    assert_eq!(response.status, 404);
    assert_eq!(error_of(&response), "Issue does not belong to this project");
    assert_eq!(asked, vec![Query::FindProject { id: 2 }, Query::GetIssue { id: 5 }]);
}

#[test]
fn update_issue_without_fields_is_refused() {
    let payload = no_changes();
    let (asked, response) = exchange(
        |stage, event| update_issue(stage, 2, 5, &payload, event),
        vec![StoreEvent::Connected, StoreEvent::Project(project(2))],
    );
    let response = response.unwrap();
    assert_eq!(response.status, 400);
    assert_eq!(error_of(&response), "At least one field must be provided for update.");
    assert_eq!(asked, vec![Query::FindProject { id: 2 }]);
}

#[test]
fn update_issue_with_unknown_status_is_refused() {
    for status in ["bogus", "", "open ", "re-solved"] {
        let payload = UpdateIssueRequest { status: Some(status.to_string()), ..no_changes() };
        let (asked, response) = exchange(
            |stage, event| update_issue(stage, 2, 5, &payload, event),
            vec![
                StoreEvent::Connected,
                StoreEvent::Project(project(2)),
                StoreEvent::Issue(issue(5, 2)),
                StoreEvent::Issue(issue(5, 2)),
            ],
        );
        let response = response.unwrap();
        assert_eq!(response.status, 400);
        assert_eq!(
            error_of(&response),
            "Invalid status value. Allowed values: [\"open\", \"in_progress\", \"resolved\", \"closed\"]"
        );
        assert_eq!(asked, vec![Query::FindProject { id: 2 }, Query::GetIssue { id: 5 }]);
    }
}

#[test]
fn update_issue_looks_at_the_issue_before_the_status() {
    let payload = UpdateIssueRequest { status: Some("bogus".to_string()), ..no_changes() };
    let (asked, response) = exchange(
        |stage, event| update_issue(stage, 2, 5, &payload, event),
        vec![StoreEvent::Connected, StoreEvent::Project(project(2)), StoreEvent::Issue(issue(5, 3))],
    );
    let response = response.unwrap();
    assert_eq!(response.status, 404);
    assert_eq!(error_of(&response), "Issue does not belong to this project");
    assert_eq!(asked, vec![Query::FindProject { id: 2 }, Query::GetIssue { id: 5 }]);

    let (asked, response) = exchange(
        |stage, event| update_issue(stage, 2, 5, &payload, event),
        vec![
            StoreEvent::Connected,
            StoreEvent::Project(project(2)),
            StoreEvent::Failed(DbError::NotFound),
        ],
    );
    let response = response.unwrap();
    assert_eq!(response.status, 404);
    assert_eq!(error_of(&response), "Record not found");
    assert_eq!(asked, vec![Query::FindProject { id: 2 }, Query::GetIssue { id: 5 }]);

    let (asked, response) = exchange(
        |stage, event| update_issue(stage, 2, 5, &payload, event),
        vec![StoreEvent::Connected, StoreEvent::Failed(DbError::NotFound)],
    );
    let response = response.unwrap();
    assert_eq!(response.status, 404);
    assert_eq!(error_of(&response), "Project with ID 2 not found");
    assert_eq!(asked, vec![Query::FindProject { id: 2 }]);

    let (asked, response) = exchange(
        |stage, event| delete_issue(stage, 2, 5, event),
        vec![
            StoreEvent::Connected,
            StoreEvent::Project(project(2)),
            StoreEvent::Failed(DbError::NotFound),
        ],
    );
    let response = response.unwrap();
    assert_eq!(response.status, 404);
    assert_eq!(error_of(&response), "Record not found");
    assert_eq!(asked, vec![Query::FindProject { id: 2 }, Query::GetIssue { id: 5 }]);
}

#[test]
fn the_status_at_hand_decides_the_step() {
    let creation = CreateIssueRequest {
        title: "Bug".to_string(),
        description: "x".to_string(),
        created_by: "alice".to_string(),
        assigned_to: Some("bob".to_string()),
        status: Some("ignored here".to_string()),
    };
    for status in ["open", "in_progress", "resolved", "closed"] {
        assert_eq!(
            create_issue_with_status(4, &creation, status),
            Step::Ask {
                query: Query::InsertIssue(NewIssue {
                    project_id: 4,
                    title: "Bug".to_string(),
                    description: "x".to_string(),
                    created_by: "alice".to_string(),
                    assigned_to: Some("bob".to_string()),
                    status: status.to_string(),
                    is_open: true,
                }),
                next: Stage::Completing,
            }
        );
    }
    for status in ["Open", "RESOLVED", "bogus", "", "closed "] {
        match create_issue_with_status(4, &creation, status) {
            Step::Respond(response) => {
                assert_eq!(response.status, 400);
                assert_eq!(
                    error_of(&response),
                    "Invalid status value. Allowed values: [\"open\", \"in_progress\", \"resolved\", \"closed\"]"
                );
            }
            other => panic!("unexpected step: {:?}", other),
        }
    }

    let update = UpdateIssueRequest {
        title: Some("t".to_string()),
        assigned_to: Some(None),
        status: Some("ignored here".to_string()),
        is_open: Some(false),
        ..no_changes()
    };
    let asked_with = |status: Option<&str>| Step::<IssueResponse>::Ask {
        query: Query::UpdateIssue {
            id: 5,
            changes: IssueChanges {
                title: Some("t".to_string()),
                description: None,
                assigned_to: Some(None),
                status: status.map(|text| text.to_string()),
                is_open: Some(false),
            },
        },
        next: Stage::Completing,
    };
    assert_eq!(update_issue_with_status(&issue(5, 2), &update, None), asked_with(None));
    for status in ["open", "in_progress", "resolved", "closed"] {
        assert_eq!(
            update_issue_with_status(&issue(5, 2), &update, Some(status.to_string())),
            asked_with(Some(status))
        );
    }
    for status in ["Resolved", "bogus", ""] {
        match update_issue_with_status(&issue(5, 2), &update, Some(status.to_string())) {
            Step::Respond(response) => assert_eq!(response.status, 400),
            other => panic!("unexpected step: {:?}", other),
        }
    }
    assert_eq!(update.lowered_status(), Some("ignored here".to_string()));
    assert_eq!(
        UpdateIssueRequest { status: Some("ReSolved".to_string()), ..no_changes() }.lowered_status(),
        Some("resolved".to_string())
    );
    assert_eq!(no_changes().lowered_status(), None);
}

#[test]
fn update_issue_lowers_the_status() {
    for (sent, written) in [
        ("Resolved", "resolved"),
        ("OPEN", "open"),
        ("In_Progress", "in_progress"),
        ("closed", "closed"),
    ] {
        let payload = UpdateIssueRequest {
            title: Some("Kept As Sent".to_string()),
            status: Some(sent.to_string()),
            ..no_changes()
        };
        let (asked, _) = exchange(
            |stage, event| update_issue(stage, 2, 5, &payload, event),
            vec![StoreEvent::Connected, StoreEvent::Project(project(2)), StoreEvent::Issue(issue(5, 2))],
        );
        assert_eq!(
            asked,
            vec![
                Query::FindProject { id: 2 },
                Query::GetIssue { id: 5 },
                Query::UpdateIssue {
                    id: 5,
                    changes: IssueChanges {
                        title: Some("Kept As Sent".to_string()),
                        description: None,
                        assigned_to: None,
                        status: Some(written.to_string()),
                        is_open: None,
                    },
                },
            ]
        );
    }
}

#[test]
fn update_issue_can_clear_the_assignee() {
    let payload = UpdateIssueRequest { assigned_to: Some(None), ..no_changes() };
    let step = update_issue(Stage::FindingIssue, 2, 5, &payload, StoreEvent::Issue(issue(5, 2)));
    assert_eq!(
        step,
        Step::Ask {
            query: Query::UpdateIssue {
                id: 5,
                changes: IssueChanges {
                    title: None,
                    description: None,
                    assigned_to: Some(None),
                    status: None,
                    is_open: None,
                },
            },
            next: Stage::Completing,
        }
    );
    let payload = UpdateIssueRequest { assigned_to: Some(Some("bob".to_string())), ..no_changes() };
    match update_issue(Stage::FindingIssue, 2, 5, &payload, StoreEvent::Issue(issue(5, 2))) {
        Step::Ask { query: Query::UpdateIssue { changes, .. }, .. } => {
            assert_eq!(changes.assigned_to, Some(Some("bob".to_string())));
        }
        other => panic!("unexpected step: {:?}", other),
    }
}

#[test]
fn update_of_a_missing_issue_is_not_found() {
    let payload = UpdateIssueRequest { is_open: Some(false), ..no_changes() };
    let (asked, response) = exchange(
        |stage, event| update_issue(stage, 2, 5, &payload, event),
        vec![
            StoreEvent::Connected,
            StoreEvent::Project(project(2)),
            StoreEvent::Failed(DbError::NotFound),
        ],
    );
    let response = response.unwrap();
    assert_eq!(response.status, 404);
    assert_eq!(error_of(&response), "Record not found");
    assert_eq!(asked.len(), 2);
}

#[test]
fn delete_issue_that_is_gone_is_not_found() {
    let (_, response) = exchange(
        |stage, event| delete_issue(stage, 2, 5, event),
        vec![
            StoreEvent::Connected,
            StoreEvent::Project(project(2)),
            StoreEvent::Issue(issue(5, 2)),
            StoreEvent::Affected(0),
        ],
    );
    let response = response.unwrap();
    assert_eq!(response.status, 404);
    assert_eq!(error_of(&response), "Issue 5 not found");
}

#[test]
fn issue_handlers_report_store_failures_without_their_detail() {
    let payload = CreateIssueRequest {
        title: "Bug".to_string(),
        description: "x".to_string(),
        created_by: "alice".to_string(),
        assigned_to: None,
        status: None,
    };
    let cases = vec![
        (DatabaseErrorKind::ForeignKeyViolation, 400, "Invalid reference"),
        (DatabaseErrorKind::UniqueViolation, 409, "Record already exists"),
        (DatabaseErrorKind::Other, 500, "Database error"),
    ];
    for (kind, status, message) in cases {
        let failed = StoreEvent::Failed(DbError::DatabaseError(kind, "secret detail".to_string()));
        match create_issue(Stage::Completing, 1, &payload, failed) {
            Step::Respond(response) => {
                assert_eq!(response.status, status);
                assert_eq!(error_of(&response), message);
            }
            other => panic!("unexpected step: {:?}", other),
        }
    }
    let broken = StoreEvent::Failed(DbError::Other("secret detail".to_string()));
    match get_project_issues(Stage::Completing, 1, broken) {
        Step::Respond(response) => {
            assert_eq!(response.status, 500);
            assert_eq!(error_of(&response), "Internal server error");
        }
        other => panic!("unexpected step: {:?}", other),
    }
}

#[test]
fn issue_handlers_answer_500_without_a_connection() {
    let lost = || StoreEvent::ConnectionFailed("timed out waiting for connection".to_string());
    let creation = CreateIssueRequest {
        title: "Bug".to_string(),
        description: "x".to_string(),
        created_by: "alice".to_string(),
        assigned_to: None,
        status: None,
    };
    let changes = UpdateIssueRequest { title: Some("t".to_string()), ..no_changes() };
    let (asked, response) = exchange(|s, e| get_project_issues(s, 1, e), vec![lost()]);
    assert!(asked.is_empty());
    assert_eq!(response.as_ref().unwrap().status, 500);
    assert_eq!(error_of(response.as_ref().unwrap()), "Internal server error");
    let (asked, response) = exchange(|s, e| create_issue(s, 1, &creation, e), vec![lost()]);
    assert!(asked.is_empty());
    assert_eq!(response.unwrap().status, 500);
    let (asked, response) = exchange(|s, e| update_issue(s, 1, 2, &changes, e), vec![lost()]);
    assert!(asked.is_empty());
    assert_eq!(response.unwrap().status, 500);
    let (asked, response) = exchange(|s, e| delete_issue(s, 1, 2, e), vec![lost()]);
    assert!(asked.is_empty());
    assert_eq!(response.unwrap().status, 500);
}

#[test]
fn an_event_out_of_turn_ends_the_exchange_with_500() {
    match get_project_issues(Stage::FindingIssue, 1, StoreEvent::Connected) {
        Step::Respond(response) => {
            assert_eq!(response.status, 500);
            assert_eq!(error_of(&response), "Internal server error");
        }
        other => panic!("unexpected step: {:?}", other),
    }
    match delete_issue(Stage::Completing, 1, 2, StoreEvent::Issues(Vec::new())) {
        Step::Respond(response) => {
            assert_eq!(response.status, 500);
            assert_eq!(error_of(&response), "Internal server error");
        }
        other => panic!("unexpected step: {:?}", other),
    }
}

#[test]
fn models_name_the_statements_for_issues() {
    assert_eq!(Issue::get_by_project(4), Query::IssuesOfProject { project_id: 4 });
    assert_eq!(Issue::get_by_id(9), Query::GetIssue { id: 9 });
    assert_eq!(Issue::delete(9), Query::DeleteIssue { id: 9 });
    let changes = IssueChanges {
        title: None,
        description: None,
        assigned_to: None,
        status: Some("resolved".to_string()),
        is_open: None,
    };
    assert_eq!(
        issue(9, 4).update(changes.clone()),
        Query::UpdateIssue { id: 9, changes }
    );
    match Issue::create(4, "t", "d", "me", Some("you"), "closed") {
        Query::InsertIssue(row) => {
            assert!(row.is_open);
            assert_eq!(row.status, "closed");
            assert_eq!(row.assigned_to, Some("you".to_string()));
        }
        other => panic!("unexpected statement: {:?}", other),
    }
}

use ticket_manager::config::{DatabaseConfig, Environment, MAX_POOL_SIZE};
use ticket_manager::error::{failure, internal_server_error, AppError, DatabaseErrorKind, DbError};
use ticket_manager::handlers::api_response::{ApiResponse, Response};
use ticket_manager::handlers::project::ProjectResponse;
use ticket_manager::models::Project;
use ticket_manager::routes::router::{endpoints, Endpoint, Method};
use ticket_manager::store::{optional, StoreEvent};
use ticket_manager::text::{blank, clone_optional, push_decimal, same_text, white_space};

fn decimal(n: i32) -> String {
    let mut out = String::new();
    push_decimal(&mut out, n);
    out
}

#[test]
fn decimals_read_as_the_standard_library_writes_them() {
    for n in [0, 1, 9, 10, 11, 99, 100, 101, 999, 1000, 65535, 2147483647, -1, -9, -10, -2147483647, -2147483648] {
        assert_eq!(decimal(n), n.to_string());
    }
    assert_eq!(decimal(0), "0");
    assert_eq!(decimal(-2147483648), "-2147483648");
    assert_eq!(decimal(1200), "1200");
    let mut text = "id ".to_string();
    push_decimal(&mut text, 42);
    assert_eq!(text, "id 42");
}

#[test]
fn blank_means_nothing_but_whitespace() {
    assert!(blank(""));
    assert!(blank(" "));
    assert!(blank("\r\n\t "));
    assert!(blank("\u{b}\u{c}\u{85}\u{a0}\u{1680}\u{2000}\u{200a}\u{2028}\u{2029}\u{202f}\u{205f}\u{3000}"));
    assert!(!blank("a"));
    assert!(!blank("  a  "));
    assert!(!blank("_"));
    assert!(!blank("Demo"));
    assert!(!blank("\u{200b}"));
    assert!(!blank("\u{180e}"));
    assert!(!blank("\u{feff}"));
    assert!(!blank("   \u{0}"));
}

#[test]
fn whitespace_is_what_the_standard_library_takes_for_it() {
    let mut count = 0;
    for code in 0..=0x10ffffu32 {
        if let Some(c) = char::from_u32(code) {
            assert_eq!(white_space(c), c.is_whitespace(), "U+{:04X}", code);
            if white_space(c) {
                count += 1;
            }
            let alone = c.to_string();
            assert_eq!(blank(&alone), alone.trim().is_empty(), "U+{:04X}", code);
        }
    }
    assert_eq!(count, 25);
    for text in ["", " ", "a", " a", "a ", " \t\n", "\u{3000}x\u{3000}", "  \u{2003} ", "x\u{a0}"] {
        assert_eq!(blank(text), text.trim().is_empty());
    }
}

#[test]
fn same_text_compares_characters() {
    assert!(same_text("open", "open"));
    assert!(same_text("", ""));
    assert!(!same_text("open", "Open"));
    assert!(!same_text("open", "open "));
    assert_eq!(clone_optional(&Some("a".to_string())), Some("a".to_string()));
    assert_eq!(clone_optional(&None), None);
}

#[test]
fn failures_map_to_status_and_message() {
    let cases = vec![
        (AppError::ProjectNotFound("demo".to_string()), 404, "Project not found: demo"),
        (AppError::IssueNotFound(12), 404, "Issue not found: 12"),
        (AppError::IssueNotFound(-3), 404, "Issue not found: -3"),
        (AppError::Validation("name".to_string()), 400, "Validation error: name"),
        (AppError::Database(DbError::NotFound), 404, "Record not found"),
        (
            AppError::Database(DbError::DatabaseError(
                DatabaseErrorKind::UniqueViolation,
                "dup".to_string(),
            )),
            409,
            "Record already exists",
        ),
        (
            AppError::Database(DbError::DatabaseError(
                DatabaseErrorKind::ForeignKeyViolation,
                "fk".to_string(),
            )),
            400,
            "Invalid reference",
        ),
        (
            AppError::Database(DbError::DatabaseError(DatabaseErrorKind::Other, "x".to_string())),
            500,
            "Database error",
        ),
        (AppError::Database(DbError::Other("x".to_string())), 500, "Internal server error"),
        (AppError::DatabaseConnection("x".to_string()), 500, "Internal server error"),
        (AppError::Environment("x".to_string()), 500, "Internal server error"),
        (AppError::Serialization("x".to_string()), 500, "Internal server error"),
    ];
    for (error, status, message) in cases {
        assert_eq!(error.clone().into_status(), (status, message.to_string()));
        let response: Response<ProjectResponse> = failure(error);
        assert_eq!(response.status, status);
        assert_eq!(response.body, ApiResponse::Error { error: message.to_string() });
    }
}

#[test]
fn failures_describe_themselves() {
    assert_eq!(AppError::Database(DbError::NotFound).description(), "Database error: Record not found");
    assert_eq!(
        AppError::Database(DbError::DatabaseError(DatabaseErrorKind::Other, "boom".to_string()))
            .description(),
        "Database error: boom"
    );
    assert_eq!(
        AppError::Database(DbError::Other("no rows".to_string())).description(),
        "Database error: no rows"
    );
    assert_eq!(
        AppError::DatabaseConnection("timed out".to_string()).description(),
        "Database connection error: timed out"
    );
    assert_eq!(
        AppError::Environment("environment variable not found".to_string()).description(),
        "Environment error: environment variable not found"
    );
    assert_eq!(AppError::ProjectNotFound("p".to_string()).description(), "Project not found: p");
    assert_eq!(AppError::IssueNotFound(7).description(), "Issue not found: 7");
    assert_eq!(AppError::Validation("v".to_string()).description(), "Validation error: v");
    assert_eq!(AppError::Serialization("s".to_string()).description(), "Serialization error: s");
    assert_eq!(DbError::NotFound.detail(), "Record not found");
}

#[test]
fn envelopes_hold_what_they_are_given() {
    assert_eq!(ApiResponse::success(5u8), ApiResponse::Success(5u8));
    assert_eq!(
        ApiResponse::<u8>::error("nope".to_string()),
        ApiResponse::Error { error: "nope".to_string() }
    );
    let response: Response<u8> = internal_server_error("Database connection failed");
    assert_eq!(response.status, 500);
    assert_eq!(response.body, ApiResponse::Error { error: "Database connection failed".to_string() });
    assert_eq!(Response::succeed(201, 7u8), Response { status: 201, body: ApiResponse::Success(7u8) });
    assert_eq!(
        Response::<u8>::fail(404, "gone".to_string()),
        Response { status: 404, body: ApiResponse::Error { error: "gone".to_string() } }
    );
}

#[test]
fn a_missing_row_is_no_failure_once_made_optional() {
    let row = Project { id: 1, name: "n".to_string(), description: String::new() };
    assert_eq!(optional(StoreEvent::Project(row.clone()).into_project()), Ok(Some(row)));
    assert_eq!(optional(StoreEvent::Failed(DbError::NotFound).into_project()), Ok(None));
    assert_eq!(
        optional(StoreEvent::Failed(DbError::Other("x".to_string())).into_project()),
        Err(AppError::Database(DbError::Other("x".to_string())))
    );
    assert_eq!(
        optional(StoreEvent::ConnectionFailed("x".to_string()).into_project()),
        Err(AppError::DatabaseConnection("x".to_string()))
    );
    assert_eq!(
        StoreEvent::Affected(2).into_project(),
        Err(AppError::Database(DbError::Other("Unexpected reply from the store".to_string())))
    );
    assert_eq!(StoreEvent::Affected(2).into_affected(), Ok(2));
    assert_eq!(StoreEvent::Connected.into_connection(), Ok(()));
    assert_eq!(StoreEvent::Projects(Vec::new()).into_projects(), Ok(Vec::new()));
    assert_eq!(StoreEvent::Issues(Vec::new()).into_issues(), Ok(Vec::new()));
    assert!(StoreEvent::Connected.into_issue().is_err());
}

fn environment(values: [Option<&str>; 6]) -> Environment {
    let own = |value: Option<&str>| value.map(|text| text.to_string());
    Environment {
        database_url: own(values[0]),
        host: own(values[1]),
        port: own(values[2]),
        user: own(values[3]),
        password: own(values[4]),
        database: own(values[5]),
    }
}

#[test]
fn connection_string_from_url_or_parts() {
    let url = environment([Some("postgres://u:p@h:1/d"), None, None, None, None, None]);
    assert_eq!(
        DatabaseConfig::from_env(&url),
        Ok(DatabaseConfig { connection_string: "postgres://u:p@h:1/d".to_string() })
    );
    let parts = environment([None, Some("db.local"), Some("6543"), Some("me"), Some("pw"), Some("tickets")]);
    assert_eq!(
        DatabaseConfig::from_env(&parts).unwrap().connection_string,
        "postgres://me:pw@db.local:6543/tickets"
    );
    let defaults = environment([None, None, None, Some("me"), Some("pw"), Some("tickets")]);
    assert_eq!(
        DatabaseConfig::from_env(&defaults).unwrap().connection_string,
        "postgres://me:pw@localhost:5432/tickets"
    );
    let both = environment([Some("url"), Some("h"), Some("1"), Some("u"), Some("p"), Some("d")]);
    assert_eq!(DatabaseConfig::from_env(&both).unwrap().connection_string, "url");
    assert_eq!(MAX_POOL_SIZE, 15);
}

#[test]
fn connection_string_needs_user_password_and_database() {
    let no_user = environment([None, Some("h"), Some("1"), None, None, None]);
    assert_eq!(
        DatabaseConfig::from_env(&no_user),
        Err(AppError::Environment("PGUSER must be set".to_string()))
    );
    let no_password = environment([None, None, None, Some("u"), None, Some("d")]);
    assert_eq!(
        DatabaseConfig::from_env(&no_password),
        Err(AppError::Environment("PGPASSWORD must be set".to_string()))
    );
    let no_database = environment([None, None, None, Some("u"), Some("p"), None]);
    assert_eq!(
        DatabaseConfig::from_env(&no_database),
        Err(AppError::Environment("PGDATABASE must be set".to_string()))
    );
}

#[test]
fn every_endpoint_has_its_route() {
    let table: Vec<(Method, &str)> =
        endpoints().into_iter().map(|endpoint| (endpoint.method(), endpoint.path())).collect();
    assert_eq!(
        table,
        vec![
            (Method::Post, "/api/projects"),
            (Method::Get, "/api/projects"),
            (Method::Delete, "/api/projects/{project_id}"),
            (Method::Put, "/api/projects/{project_id}"),
            (Method::Post, "/api/projects/{project_name}/issues"),
            (Method::Get, "/api/projects/{project_name}/issues"),
            (Method::Put, "/api/projects/{project_name}/issues/{issue_id}"),
            (Method::Delete, "/api/projects/{project_name}/issues/{issue_id}"),
        ]
    );
    assert_eq!(endpoints()[4], Endpoint::CreateIssue);
    for (i, a) in table.iter().enumerate() {
        for b in table.iter().skip(i + 1) {
            assert_ne!(a, b);
        }
    }
}

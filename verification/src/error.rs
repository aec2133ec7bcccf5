//! What can go wrong while a request is served, and the status code and
//! message each failure is reported with.

use vstd::prelude::*;
use crate::handlers::api_response::{
    error_response, Response, ResponseView, STATUS_BAD_REQUEST, STATUS_CONFLICT,
    STATUS_INTERNAL_SERVER_ERROR, STATUS_NOT_FOUND,
};
use crate::text::{decimal, push_decimal};

verus! {

/// The rule of the store that a refused statement ran into.
#[derive(Debug, Clone, Copy, PartialEq, Eq, Structural)]
pub enum DatabaseErrorKind {
    UniqueViolation,
    ForeignKeyViolation,
    Other,
}

/// A failure reported by the store.
#[derive(Debug, Clone, PartialEq, Eq)]
pub enum DbError {
    /// A statement that must yield a row yielded none.
    NotFound,
    /// The database refused the statement; the text is its own account.
    DatabaseError(DatabaseErrorKind, String),
    /// Anything else, with the account the store gave of it.
    Other(String),
}

/// Mathematical model of a [`DbError`].
pub enum DbErrorView {
    NotFound,
    DatabaseError(DatabaseErrorKind, Seq<char>),
    Other(Seq<char>),
}

impl DeepView for DbError {
    type V = DbErrorView;

    open spec fn deep_view(&self) -> DbErrorView {
        match self {
            DbError::NotFound => DbErrorView::NotFound,
            DbError::DatabaseError(kind, detail) => DbErrorView::DatabaseError(*kind, detail@),
            DbError::Other(detail) => DbErrorView::Other(detail@),
        }
    }
}

impl View for DbError {
    type V = DbErrorView;

    open spec fn view(&self) -> DbErrorView {
        self.deep_view()
    }
}

impl DbErrorView {
    /// The account a store failure gives of itself.
    pub open spec fn detail(self) -> Seq<char> {
        match self {
            DbErrorView::NotFound => "Record not found"@,
            DbErrorView::DatabaseError(_, detail) => detail,
            DbErrorView::Other(detail) => detail,
        }
    }
}

impl DbError {
    /// The account this failure gives of itself.
    pub fn detail(&self) -> (out: String)
        ensures
            out@ == self@.detail(),
    {
        match self {
            DbError::NotFound => "Record not found".to_owned(),
            DbError::DatabaseError(_, detail) => detail.clone(),
            DbError::Other(detail) => detail.clone(),
        }
    }
}

/// Every way in which serving a request can fail.
#[derive(Debug, Clone, PartialEq, Eq)]
pub enum AppError {
    Database(DbError),
    DatabaseConnection(String),
    Environment(String),
    ProjectNotFound(String),
    IssueNotFound(i32),
    Validation(String),
    Serialization(String),
}

/// Mathematical model of an [`AppError`].
pub enum AppErrorView {
    Database(DbErrorView),
    DatabaseConnection(Seq<char>),
    Environment(Seq<char>),
    ProjectNotFound(Seq<char>),
    IssueNotFound(i32),
    Validation(Seq<char>),
    Serialization(Seq<char>),
}

impl DeepView for AppError {
    type V = AppErrorView;

    open spec fn deep_view(&self) -> AppErrorView {
        match self {
            AppError::Database(e) => AppErrorView::Database(e@),
            AppError::DatabaseConnection(s) => AppErrorView::DatabaseConnection(s@),
            AppError::Environment(s) => AppErrorView::Environment(s@),
            AppError::ProjectNotFound(s) => AppErrorView::ProjectNotFound(s@),
            AppError::IssueNotFound(id) => AppErrorView::IssueNotFound(*id),
            AppError::Validation(s) => AppErrorView::Validation(s@),
            AppError::Serialization(s) => AppErrorView::Serialization(s@),
        }
    }
}

impl View for AppError {
    type V = AppErrorView;

    open spec fn view(&self) -> AppErrorView {
        self.deep_view()
    }
}

impl AppErrorView {
    /// The full description of a failure, as it is written to a log.
    pub open spec fn description(self) -> Seq<char> {
        match self {
            AppErrorView::Database(e) => "Database error: "@ + e.detail(),
            AppErrorView::DatabaseConnection(s) => "Database connection error: "@ + s,
            AppErrorView::Environment(s) => "Environment error: "@ + s,
            AppErrorView::ProjectNotFound(s) => "Project not found: "@ + s,
            AppErrorView::IssueNotFound(id) => "Issue not found: "@ + decimal(id as int),
            AppErrorView::Validation(s) => "Validation error: "@ + s,
            AppErrorView::Serialization(s) => "Serialization error: "@ + s,
        }
    }

    /// The status code a failure is reported with.
    pub open spec fn status(self) -> u16 {
        match self {
            AppErrorView::ProjectNotFound(_) | AppErrorView::IssueNotFound(_) => STATUS_NOT_FOUND,
            AppErrorView::Validation(_) => STATUS_BAD_REQUEST,
            AppErrorView::Database(DbErrorView::NotFound) => STATUS_NOT_FOUND,
            AppErrorView::Database(
                DbErrorView::DatabaseError(DatabaseErrorKind::UniqueViolation, _),
            ) => STATUS_CONFLICT,
            AppErrorView::Database(
                DbErrorView::DatabaseError(DatabaseErrorKind::ForeignKeyViolation, _),
            ) => STATUS_BAD_REQUEST,
            _ => STATUS_INTERNAL_SERVER_ERROR,
        }
    }

    /// The message a failure is reported with. What the store or the pool
    /// said of an unexpected failure never shows in it.
    pub open spec fn message(self) -> Seq<char> {
        match self {
            AppErrorView::ProjectNotFound(_)
            | AppErrorView::IssueNotFound(_)
            | AppErrorView::Validation(_) => self.description(),
            AppErrorView::Database(DbErrorView::NotFound) => "Record not found"@,
            AppErrorView::Database(
                DbErrorView::DatabaseError(DatabaseErrorKind::UniqueViolation, _),
            ) => "Record already exists"@,
            AppErrorView::Database(
                DbErrorView::DatabaseError(DatabaseErrorKind::ForeignKeyViolation, _),
            ) => "Invalid reference"@,
            AppErrorView::Database(DbErrorView::DatabaseError(DatabaseErrorKind::Other, _)) =>
                "Database error"@,
            _ => "Internal server error"@,
        }
    }
}

/// The string that holds `prefix` followed by `rest`.
fn prefixed(prefix: &str, rest: &str) -> (out: String)
    ensures
        out@ == prefix@ + rest@,
{
    let mut out = prefix.to_owned();
    out.append(rest);
    out
}

impl AppError {
    /// The full description of this failure, as it is written to a log.
    pub fn description(&self) -> (out: String)
        ensures
            out@ == self@.description(),
    {
        match self {
            AppError::Database(e) => {
                let detail = e.detail();
                prefixed("Database error: ", detail.as_str())
            },
            AppError::DatabaseConnection(s) => prefixed("Database connection error: ", s.as_str()),
            AppError::Environment(s) => prefixed("Environment error: ", s.as_str()),
            AppError::ProjectNotFound(s) => prefixed("Project not found: ", s.as_str()),
            AppError::IssueNotFound(id) => {
                let mut out = "Issue not found: ".to_owned();
                push_decimal(&mut out, *id);
                out
            },
            AppError::Validation(s) => prefixed("Validation error: ", s.as_str()),
            AppError::Serialization(s) => prefixed("Serialization error: ", s.as_str()),
        }
    }

    /// The status code and the message this failure is reported with.
    pub fn into_status(self) -> (out: (u16, String))
        ensures
            out.0 == self@.status(),
            out.1@ == self@.message(),
    {
        match &self {
            AppError::ProjectNotFound(_) | AppError::IssueNotFound(_) => (
                STATUS_NOT_FOUND,
                self.description(),
            ),
            AppError::Validation(_) => (STATUS_BAD_REQUEST, self.description()),
            AppError::Database(e) => match e {
                DbError::NotFound => (STATUS_NOT_FOUND, "Record not found".to_owned()),
                DbError::DatabaseError(kind, _) => match kind {
                    DatabaseErrorKind::UniqueViolation => (
                        STATUS_CONFLICT,
                        "Record already exists".to_owned(),
                    ),
                    DatabaseErrorKind::ForeignKeyViolation => (
                        STATUS_BAD_REQUEST,
                        "Invalid reference".to_owned(),
                    ),
                    DatabaseErrorKind::Other => (
                        STATUS_INTERNAL_SERVER_ERROR,
                        "Database error".to_owned(),
                    ),
                },
                DbError::Other(_) => (
                    STATUS_INTERNAL_SERVER_ERROR,
                    "Internal server error".to_owned(),
                ),
            },
            _ => (STATUS_INTERNAL_SERVER_ERROR, "Internal server error".to_owned()),
        }
    }
}

/// Conflict is what a violated uniqueness rule is reported as, and nothing
/// else; a failure of the store is put down to the request only where a
/// reference does not hold; and no failure is reported under a status other
/// than 400, 404, 409 and 500.
pub proof fn lemma_status_of_failures(error: AppErrorView)
    ensures
        error.status() == STATUS_BAD_REQUEST || error.status() == STATUS_NOT_FOUND
            || error.status() == STATUS_CONFLICT || error.status()
            == STATUS_INTERNAL_SERVER_ERROR,
        (error.status() == STATUS_CONFLICT) == (error matches AppErrorView::Database(
            DbErrorView::DatabaseError(DatabaseErrorKind::UniqueViolation, _),
        )),
        error is Database ==> ((error.status() == STATUS_BAD_REQUEST) == (error
            matches AppErrorView::Database(
            DbErrorView::DatabaseError(DatabaseErrorKind::ForeignKeyViolation, _),
        ))),
{
}

/// What the store, the pool, the environment or the encoder said of a
/// failure never shows in the answer: two failures that differ in nothing
/// but that account are reported alike, and one that nothing more is known
/// of is reported as an internal error.
pub proof fn lemma_failures_are_reported_without_detail(
    kind: DatabaseErrorKind,
    first: Seq<char>,
    second: Seq<char>,
)
    ensures
        failure_response::<()>(AppErrorView::Database(DbErrorView::DatabaseError(kind, first)))
            == failure_response::<()>(
            AppErrorView::Database(DbErrorView::DatabaseError(kind, second)),
        ),
        failure_response::<()>(AppErrorView::Database(DbErrorView::Other(first)))
            == error_response::<()>(STATUS_INTERNAL_SERVER_ERROR, "Internal server error"@),
        failure_response::<()>(AppErrorView::DatabaseConnection(first)) == error_response::<()>(
            STATUS_INTERNAL_SERVER_ERROR,
            "Internal server error"@,
        ),
        failure_response::<()>(AppErrorView::Environment(first)) == error_response::<()>(
            STATUS_INTERNAL_SERVER_ERROR,
            "Internal server error"@,
        ),
        failure_response::<()>(AppErrorView::Serialization(first)) == error_response::<()>(
            STATUS_INTERNAL_SERVER_ERROR,
            "Internal server error"@,
        ),
{
}

/// The answer that reports `error`.
pub open spec fn failure_response<V>(error: AppErrorView) -> ResponseView<V> {
    error_response(error.status(), error.message())
}

/// Answers with the status code and the message that `error` is reported
/// with.
pub fn failure<T: DeepView>(error: AppError) -> (out: Response<T>)
    ensures
        out@ == failure_response::<T::V>(error@),
{
    let (status, message) = error.into_status();
    Response::fail(status, message)
}

/// Answers with status 500 and the given message.
pub fn internal_server_error<T: DeepView>(message: &str) -> (out: Response<T>)
    ensures
        out@ == error_response::<T::V>(STATUS_INTERNAL_SERVER_ERROR, message@),
{
    Response::fail(STATUS_INTERNAL_SERVER_ERROR, message.to_owned())
}

} // verus!

//! The dialogue between a handler and the store. A handler never touches
//! the store: it names the statement it wants run, and is handed what came
//! of it.

use vstd::prelude::*;
use crate::error::{internal_server_error, AppError, AppErrorView, DbError, DbErrorView};
use crate::handlers::api_response::{
    error_response, Response, ResponseView, STATUS_INTERNAL_SERVER_ERROR,
};
use crate::models::issue::{Issue, IssueChanges, IssueChangesView, IssueView, NewIssue, NewIssueView};
use crate::models::project::{
    NewProject, NewProjectView, Project, ProjectView, UpdateProject, UpdateProjectView,
};

verus! {

/// A statement for the store to run.
#[derive(Debug, Clone, PartialEq, Eq)]
pub enum Query {
    FindProject { id: i32 },
    InsertProject(NewProject),
    FirstProjects { limit: i64 },
    DeleteProject { id: i32 },
    UpdateProject { id: i32, changes: UpdateProject },
    InsertIssue(NewIssue),
    IssuesOfProject { project_id: i32 },
    GetIssue { id: i32 },
    UpdateIssue { id: i32, changes: IssueChanges },
    DeleteIssue { id: i32 },
}

/// Mathematical model of a [`Query`].
pub enum QueryView {
    FindProject { id: i32 },
    InsertProject(NewProjectView),
    FirstProjects { limit: i64 },
    DeleteProject { id: i32 },
    UpdateProject { id: i32, changes: UpdateProjectView },
    InsertIssue(NewIssueView),
    IssuesOfProject { project_id: i32 },
    GetIssue { id: i32 },
    UpdateIssue { id: i32, changes: IssueChangesView },
    DeleteIssue { id: i32 },
}

impl DeepView for Query {
    type V = QueryView;

    open spec fn deep_view(&self) -> QueryView {
        match self {
            Query::FindProject { id } => QueryView::FindProject { id: *id },
            Query::InsertProject(row) => QueryView::InsertProject(row@),
            Query::FirstProjects { limit } => QueryView::FirstProjects { limit: *limit },
            Query::DeleteProject { id } => QueryView::DeleteProject { id: *id },
            Query::UpdateProject { id, changes } => QueryView::UpdateProject {
                id: *id,
                changes: changes@,
            },
            Query::InsertIssue(row) => QueryView::InsertIssue(row@),
            Query::IssuesOfProject { project_id } => QueryView::IssuesOfProject {
                project_id: *project_id,
            },
            Query::GetIssue { id } => QueryView::GetIssue { id: *id },
            Query::UpdateIssue { id, changes } => QueryView::UpdateIssue {
                id: *id,
                changes: changes@,
            },
            Query::DeleteIssue { id } => QueryView::DeleteIssue { id: *id },
        }
    }
}

impl View for Query {
    type V = QueryView;

    open spec fn view(&self) -> QueryView {
        self.deep_view()
    }
}

/// What came of the last thing a handler waited for: the connection it
/// needs, or the statement it asked for.
#[derive(Debug, Clone, PartialEq, Eq)]
pub enum StoreEvent {
    /// A connection is at hand.
    Connected,
    /// No connection could be had; the text is the pool's account.
    ConnectionFailed(String),
    /// The statement yielded one project.
    Project(Project),
    /// The statement yielded a list of projects.
    Projects(Vec<Project>),
    /// The statement yielded one issue.
    Issue(Issue),
    /// The statement yielded a list of issues.
    Issues(Vec<Issue>),
    /// The statement changed this many rows.
    Affected(usize),
    /// The statement failed.
    Failed(DbError),
}

/// Mathematical model of a [`StoreEvent`].
pub enum StoreEventView {
    Connected,
    ConnectionFailed(Seq<char>),
    Project(ProjectView),
    Projects(Seq<ProjectView>),
    Issue(IssueView),
    Issues(Seq<IssueView>),
    Affected(usize),
    Failed(DbErrorView),
}

impl DeepView for StoreEvent {
    type V = StoreEventView;

    open spec fn deep_view(&self) -> StoreEventView {
        match self {
            StoreEvent::Connected => StoreEventView::Connected,
            StoreEvent::ConnectionFailed(detail) => StoreEventView::ConnectionFailed(detail@),
            StoreEvent::Project(row) => StoreEventView::Project(row@),
            StoreEvent::Projects(rows) => StoreEventView::Projects(rows.deep_view()),
            StoreEvent::Issue(row) => StoreEventView::Issue(row@),
            StoreEvent::Issues(rows) => StoreEventView::Issues(rows.deep_view()),
            StoreEvent::Affected(count) => StoreEventView::Affected(*count),
            StoreEvent::Failed(error) => StoreEventView::Failed(error@),
        }
    }
}

impl View for StoreEvent {
    type V = StoreEventView;

    open spec fn view(&self) -> StoreEventView {
        self.deep_view()
    }
}

/// The failure that stands for an event which does not answer what the
/// handler waited for.
pub open spec fn unexpected_event() -> AppErrorView {
    AppErrorView::Database(DbErrorView::Other("Unexpected reply from the store"@))
}

impl StoreEventView {
    /// The failure an event amounts to when it is not the answer that was
    /// waited for.
    pub open spec fn failure(self) -> AppErrorView {
        match self {
            StoreEventView::ConnectionFailed(detail) => AppErrorView::DatabaseConnection(detail),
            StoreEventView::Failed(error) => AppErrorView::Database(error),
            _ => unexpected_event(),
        }
    }

    /// The event read as the outcome of asking for a connection.
    pub open spec fn connection(self) -> Result<(), AppErrorView> {
        match self {
            StoreEventView::Connected => Ok(()),
            _ => Err(self.failure()),
        }
    }

    /// The event read as the outcome of a statement that yields one project.
    pub open spec fn project(self) -> Result<ProjectView, AppErrorView> {
        match self {
            StoreEventView::Project(row) => Ok(row),
            _ => Err(self.failure()),
        }
    }

    /// The event read as the outcome of a statement that yields a list of
    /// projects.
    pub open spec fn projects(self) -> Result<Seq<ProjectView>, AppErrorView> {
        match self {
            StoreEventView::Projects(rows) => Ok(rows),
            _ => Err(self.failure()),
        }
    }

    /// The event read as the outcome of a statement that yields one issue.
    pub open spec fn issue(self) -> Result<IssueView, AppErrorView> {
        match self {
            StoreEventView::Issue(row) => Ok(row),
            _ => Err(self.failure()),
        }
    }

    /// The event read as the outcome of a statement that yields a list of
    /// issues.
    pub open spec fn issues(self) -> Result<Seq<IssueView>, AppErrorView> {
        match self {
            StoreEventView::Issues(rows) => Ok(rows),
            _ => Err(self.failure()),
        }
    }

    /// The event read as the outcome of a statement that changes rows.
    pub open spec fn affected(self) -> Result<usize, AppErrorView> {
        match self {
            StoreEventView::Affected(count) => Ok(count),
            _ => Err(self.failure()),
        }
    }
}

/// An outcome in which a missing row is no failure: the row when there is
/// one, nothing when the store found none, and every other failure as it is.
pub open spec fn optional_outcome<V>(outcome: Result<V, AppErrorView>) -> Result<
    Option<V>,
    AppErrorView,
> {
    match outcome {
        Ok(row) => Ok(Some(row)),
        Err(AppErrorView::Database(DbErrorView::NotFound)) => Ok(None),
        Err(error) => Err(error),
    }
}

/// Mathematical model of the outcome of a statement.
pub open spec fn outcome_view<T: DeepView>(outcome: Result<T, AppError>) -> Result<
    T::V,
    AppErrorView,
> {
    match outcome {
        Ok(value) => Ok(value.deep_view()),
        Err(error) => Err(error@),
    }
}

/// Makes a missing row no failure: the row when there is one, nothing when
/// the store found none, and every other failure as it is.
pub fn optional<T: DeepView>(outcome: Result<T, AppError>) -> (out: Result<Option<T>, AppError>)
    ensures
        outcome_view(out) == optional_outcome(outcome_view(outcome)),
{
    match outcome {
        Ok(row) => Ok(Some(row)),
        Err(AppError::Database(DbError::NotFound)) => Ok(None),
        Err(error) => Err(error),
    }
}

impl StoreEvent {
    /// The failure this event amounts to when it is not the answer that was
    /// waited for.
    pub fn into_failure(self) -> (out: AppError)
        ensures
            out@ == self@.failure(),
    {
        match self {
            StoreEvent::ConnectionFailed(detail) => AppError::DatabaseConnection(detail),
            StoreEvent::Failed(error) => AppError::Database(error),
            _ => AppError::Database(DbError::Other("Unexpected reply from the store".to_owned())),
        }
    }

    /// Reads this event as the outcome of asking for a connection.
    pub fn into_connection(self) -> (out: Result<(), AppError>)
        ensures
            outcome_view(out) == self@.connection(),
    {
        match self {
            StoreEvent::Connected => Ok(()),
            other => Err(other.into_failure()),
        }
    }

    /// Reads this event as the outcome of a statement that yields one
    /// project.
    pub fn into_project(self) -> (out: Result<Project, AppError>)
        ensures
            outcome_view(out) == self@.project(),
    {
        match self {
            StoreEvent::Project(row) => Ok(row),
            other => Err(other.into_failure()),
        }
    }

    /// Reads this event as the outcome of a statement that yields a list of
    /// projects.
    pub fn into_projects(self) -> (out: Result<Vec<Project>, AppError>)
        ensures
            outcome_view(out) == self@.projects(),
    {
        match self {
            StoreEvent::Projects(rows) => Ok(rows),
            other => Err(other.into_failure()),
        }
    }

    /// Reads this event as the outcome of a statement that yields one issue.
    pub fn into_issue(self) -> (out: Result<Issue, AppError>)
        ensures
            outcome_view(out) == self@.issue(),
    {
        match self {
            StoreEvent::Issue(row) => Ok(row),
            other => Err(other.into_failure()),
        }
    }

    /// Reads this event as the outcome of a statement that yields a list of
    /// issues.
    pub fn into_issues(self) -> (out: Result<Vec<Issue>, AppError>)
        ensures
            outcome_view(out) == self@.issues(),
    {
        match self {
            StoreEvent::Issues(rows) => Ok(rows),
            other => Err(other.into_failure()),
        }
    }

    /// Reads this event as the outcome of a statement that changes rows.
    pub fn into_affected(self) -> (out: Result<usize, AppError>)
        ensures
            outcome_view(out) == self@.affected(),
    {
        match self {
            StoreEvent::Affected(count) => Ok(count),
            other => Err(other.into_failure()),
        }
    }
}

/// How far the handling of a request has come: what the handler waits for.
#[derive(Debug, Clone, Copy, PartialEq, Eq, Structural)]
pub enum Stage {
    /// Waiting for a connection to the store.
    Connecting,
    /// Waiting for the project that the request names.
    FindingProject,
    /// Waiting for the issue that the request names.
    FindingIssue,
    /// Waiting for the statement that carries the request out.
    Completing,
}

impl Stage {
    /// Position of a stage in the order in which a request passes them.
    pub open spec fn rank(self) -> nat {
        match self {
            Stage::Connecting => 0,
            Stage::FindingProject => 1,
            Stage::FindingIssue => 2,
            Stage::Completing => 3,
        }
    }
}

/// What a handler decides when it is handed an event: to have the store run
/// one more statement, or to answer.
#[derive(Debug, Clone, PartialEq, Eq)]
pub enum Step<T> {
    Ask { query: Query, next: Stage },
    Respond(Response<T>),
}

/// Mathematical model of a [`Step`].
pub enum StepView<V> {
    Ask { query: QueryView, next: Stage },
    Respond(ResponseView<V>),
}

impl<T: DeepView> DeepView for Step<T> {
    type V = StepView<T::V>;

    open spec fn deep_view(&self) -> StepView<T::V> {
        match self {
            Step::Ask { query, next } => StepView::Ask { query: query@, next: *next },
            Step::Respond(response) => StepView::Respond(response@),
        }
    }
}

impl<T: DeepView> View for Step<T> {
    type V = StepView<T::V>;

    open spec fn view(&self) -> StepView<T::V> {
        self.deep_view()
    }
}

/// The answer to a request that reached a stage at which its handler never
/// waits.
pub open spec fn out_of_turn<V>() -> StepView<V> {
    StepView::Respond(error_response(STATUS_INTERNAL_SERVER_ERROR, "Internal server error"@))
}

/// The answer to a request that reached a stage at which its handler never
/// waits.
pub fn refuse_stage<T: DeepView>() -> (out: Step<T>)
    ensures
        out@ == out_of_turn::<T::V>(),
{
    Step::Respond(internal_server_error("Internal server error"))
}

impl<V> StepView<V> {
    /// A step moves on when it answers, or asks and waits at a later stage
    /// than `stage`.
    pub open spec fn advances(self, stage: Stage) -> bool {
        self matches StepView::Ask { next, .. } ==> next.rank() > stage.rank()
    }
}

/// The answer that a handler gives when it starts at `stage` and is handed
/// `events` one after the other, if it gives one before they run out.
pub open spec fn answer<V>(
    handler: spec_fn(Stage, StoreEventView) -> StepView<V>,
    stage: Stage,
    events: Seq<StoreEventView>,
) -> Option<ResponseView<V>>
    decreases events.len(),
{
    if events.len() == 0 {
        None
    } else {
        match handler(stage, events[0]) {
            StepView::Respond(response) => Some(response),
            StepView::Ask { next, .. } => answer(handler, next, events.drop_first()),
        }
    }
}

/// The statements that a handler asks for, in order, when it starts at
/// `stage` and is handed `events` one after the other.
pub open spec fn asked<V>(
    handler: spec_fn(Stage, StoreEventView) -> StepView<V>,
    stage: Stage,
    events: Seq<StoreEventView>,
) -> Seq<QueryView>
    decreases events.len(),
{
    if events.len() == 0 {
        Seq::empty()
    } else {
        match handler(stage, events[0]) {
            StepView::Respond(_) => Seq::empty(),
            StepView::Ask { query, next } => seq![query] + asked(
                handler,
                next,
                events.drop_first(),
            ),
        }
    }
}

/// A handler whose every step advances answers before it has been handed
/// four events, whatever they are, and asks for at most three statements.
pub proof fn lemma_every_exchange_ends<V>(
    handler: spec_fn(Stage, StoreEventView) -> StepView<V>,
    events: Seq<StoreEventView>,
)
    requires
        forall|stage: Stage, event: StoreEventView| #[trigger]
            handler(stage, event).advances(stage),
        events.len() >= 4,
    ensures
        answer(handler, Stage::Connecting, events) is Some,
        asked(handler, Stage::Connecting, events).len() <= 3,
{
    lemma_exchange_ends_from(handler, Stage::Connecting, events);
}

/// From any stage, a handler whose every step advances answers within as
/// many events as there are stages left.
proof fn lemma_exchange_ends_from<V>(
    handler: spec_fn(Stage, StoreEventView) -> StepView<V>,
    stage: Stage,
    events: Seq<StoreEventView>,
)
    requires
        forall|stage: Stage, event: StoreEventView| #[trigger]
            handler(stage, event).advances(stage),
        events.len() + stage.rank() >= 4,
    ensures
        answer(handler, stage, events) is Some,
        asked(handler, stage, events).len() + stage.rank() <= 3,
    decreases events.len(),
{
    assert(handler(stage, events[0]).advances(stage));
    match handler(stage, events[0]) {
        StepView::Respond(_) => {},
        StepView::Ask { next, .. } => {
            lemma_exchange_ends_from(handler, next, events.drop_first());
        },
    }
}

} // verus!

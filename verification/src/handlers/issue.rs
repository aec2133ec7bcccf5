//! Handlers of the requests on the issues of a project.
//!
//! They are called as the handlers of the requests on projects are: once
//! for every event of the exchange, starting at [`Stage::Connecting`].

use vstd::prelude::*;
use crate::error::{failure, failure_response};
use crate::handlers::api_response::{
    error_response, success_response, DeleteResponseView, Response, STATUS_BAD_REQUEST,
    STATUS_CREATED, STATUS_NOT_FOUND, STATUS_OK,
};
use crate::handlers::project::{no_such_project, project_missing, project_not_found};
use crate::models::issue::{new_issue, Issue, IssueChanges, IssueChangesView, IssueView};
use crate::models::project::Project;
use crate::error::DbErrorView;
use crate::store::{
    answer, asked, lemma_every_exchange_ends, optional, optional_outcome, out_of_turn,
    refuse_stage, QueryView, Stage, Step, StepView, StoreEvent, StoreEventView,
};
use crate::text::{clone_optional, decimal, lowercased, push_decimal, same_text, to_lowercase};

verus! {

/// Body of a request to create an issue.
#[derive(Debug, Clone, PartialEq, Eq)]
pub struct CreateIssueRequest {
    pub title: String,
    pub description: String,
    pub created_by: String,
    pub assigned_to: Option<String>,
    pub status: Option<String>,
}

/// Mathematical model of a [`CreateIssueRequest`].
pub struct CreateIssueRequestView {
    pub title: Seq<char>,
    pub description: Seq<char>,
    pub created_by: Seq<char>,
    pub assigned_to: Option<Seq<char>>,
    pub status: Option<Seq<char>>,
}

impl DeepView for CreateIssueRequest {
    type V = CreateIssueRequestView;

    open spec fn deep_view(&self) -> CreateIssueRequestView {
        CreateIssueRequestView {
            title: self.title@,
            description: self.description@,
            created_by: self.created_by@,
            assigned_to: self.assigned_to.deep_view(),
            status: self.status.deep_view(),
        }
    }
}

impl View for CreateIssueRequest {
    type V = CreateIssueRequestView;

    open spec fn view(&self) -> CreateIssueRequestView {
        self.deep_view()
    }
}

/// An issue as it is shown to a client.
#[derive(Debug, Clone, PartialEq, Eq)]
pub struct IssueResponse {
    pub id: i32,
    pub project_id: i32,
    pub title: String,
    pub description: String,
    pub created_by: String,
    pub assigned_to: Option<String>,
    pub status: String,
    pub is_open: bool,
}

impl DeepView for IssueResponse {
    type V = IssueView;

    open spec fn deep_view(&self) -> IssueView {
        IssueView {
            id: self.id,
            project_id: self.project_id,
            title: self.title@,
            description: self.description@,
            created_by: self.created_by@,
            assigned_to: self.assigned_to.deep_view(),
            status: self.status@,
            is_open: self.is_open,
        }
    }
}

impl View for IssueResponse {
    type V = IssueView;

    open spec fn view(&self) -> IssueView {
        self.deep_view()
    }
}

/// Body of a request to update an issue. A field left out keeps its value;
/// an assignee that is named as absent is cleared.
#[derive(Debug, Clone, PartialEq, Eq)]
pub struct UpdateIssueRequest {
    pub title: Option<String>,
    pub description: Option<String>,
    pub assigned_to: Option<Option<String>>,
    pub status: Option<String>,
    pub is_open: Option<bool>,
}

impl DeepView for UpdateIssueRequest {
    type V = IssueChangesView;

    open spec fn deep_view(&self) -> IssueChangesView {
        IssueChangesView {
            title: self.title.deep_view(),
            description: self.description.deep_view(),
            assigned_to: self.assigned_to.deep_view(),
            status: self.status.deep_view(),
            is_open: self.is_open,
        }
    }
}

impl View for UpdateIssueRequest {
    type V = IssueChangesView;

    open spec fn view(&self) -> IssueChangesView {
        self.deep_view()
    }
}

/// Confirmation that an issue was deleted.
#[derive(Debug, Clone, PartialEq, Eq)]
pub struct DeleteResponse {
    pub success: bool,
    pub message: String,
}

impl DeepView for DeleteResponse {
    type V = DeleteResponseView;

    open spec fn deep_view(&self) -> DeleteResponseView {
        DeleteResponseView { success: self.success, message: self.message@ }
    }
}

impl View for DeleteResponse {
    type V = DeleteResponseView;

    open spec fn view(&self) -> DeleteResponseView {
        self.deep_view()
    }
}

/// The statuses an issue can be created with.
pub open spec fn is_valid_status(status: Seq<char>) -> bool {
    ||| status == "open"@
    ||| status == "in_progress"@
    ||| status == "resolved"@
    ||| status == "closed"@
}

/// The status a new issue gets: the one that was sent, in lowercase, and
/// `open` where none was sent.
pub open spec fn requested_status(status: Option<Seq<char>>) -> Seq<char> {
    match status {
        Some(status) => lowercased(status),
        None => "open"@,
    }
}

/// The status that an update writes, where it sends one: the one that was
/// sent, in lowercase.
pub open spec fn updated_status(status: Option<Seq<char>>) -> Option<Seq<char>> {
    match status {
        Some(status) => Some(lowercased(status)),
        None => None,
    }
}

/// An update may leave the status as it is; one that it sends must, in
/// lowercase, be among the valid ones.
pub open spec fn status_is_acceptable(status: Option<Seq<char>>) -> bool {
    status matches Some(status) ==> is_valid_status(lowercased(status))
}

/// What is decided of a new issue once its status is at hand in lowercase:
/// with a valid one the issue is stored, as open; with another the request
/// is refused.
pub open spec fn create_with_status_step(
    project_id: i32,
    payload: CreateIssueRequestView,
    status: Seq<char>,
) -> StepView<IssueView> {
    if is_valid_status(status) {
        StepView::Ask {
            query: QueryView::InsertIssue(
                new_issue(
                    project_id,
                    payload.title,
                    payload.description,
                    payload.created_by,
                    payload.assigned_to,
                    status,
                ),
            ),
            next: Stage::Completing,
        }
    } else {
        StepView::Respond(error_response(STATUS_BAD_REQUEST, invalid_status()))
    }
}

/// What is decided of an update once its status, where it sends one, is at
/// hand in lowercase: with none, or a valid one, the changes are asked for
/// under that status; with another the request is refused.
pub open spec fn update_with_status_step(
    id: i32,
    payload: IssueChangesView,
    status: Option<Seq<char>>,
) -> StepView<IssueView> {
    if status matches Some(sent) && !is_valid_status(sent) {
        StepView::Respond(error_response(STATUS_BAD_REQUEST, invalid_status()))
    } else {
        StepView::Ask {
            query: QueryView::UpdateIssue { id, changes: payload.with_status(status) },
            next: Stage::Completing,
        }
    }
}

/// The message that refuses a status which is not among the valid ones.
pub open spec fn invalid_status() -> Seq<char> {
    "Invalid status value. Allowed values: [\"open\", \"in_progress\", \"resolved\", \"closed\"]"@
}

/// The message that reports an issue filed under another project than the
/// request names.
pub open spec fn foreign_issue() -> Seq<char> {
    "Issue does not belong to this project"@
}

/// The message that reports an issue which does not exist.
pub open spec fn issue_not_found(issue_id: i32) -> Seq<char> {
    "Issue "@ + decimal(issue_id as int) + " not found"@
}

/// The message that confirms the deletion of an issue.
pub open spec fn issue_deleted(issue_id: i32) -> Seq<char> {
    "Issue "@ + decimal(issue_id as int) + " successfully deleted"@
}

/// What `get_project_issues` decides.
pub open spec fn get_project_issues_step(
    stage: Stage,
    project_id: i32,
    event: StoreEventView,
) -> StepView<Seq<IssueView>> {
    match stage {
        Stage::Connecting => match event.connection() {
            Err(error) => StepView::Respond(failure_response(error)),
            Ok(_) => StepView::Ask {
                query: QueryView::FindProject { id: project_id },
                next: Stage::FindingProject,
            },
        },
        Stage::FindingProject => match optional_outcome(event.project()) {
            Ok(Some(_)) => StepView::Ask {
                query: QueryView::IssuesOfProject { project_id },
                next: Stage::Completing,
            },
            Ok(None) => no_such_project(project_id),
            Err(error) => StepView::Respond(failure_response(error)),
        },
        Stage::Completing => match event.issues() {
            Ok(rows) => StepView::Respond(success_response(STATUS_OK, rows)),
            Err(error) => StepView::Respond(failure_response(error)),
        },
        _ => out_of_turn(),
    }
}

/// What `create_issue` decides.
pub open spec fn create_issue_step(
    stage: Stage,
    project_id: i32,
    payload: CreateIssueRequestView,
    event: StoreEventView,
) -> StepView<IssueView> {
    match stage {
        Stage::Connecting => match event.connection() {
            Err(error) => StepView::Respond(failure_response(error)),
            Ok(_) => StepView::Ask {
                query: QueryView::FindProject { id: project_id },
                next: Stage::FindingProject,
            },
        },
        Stage::FindingProject => match optional_outcome(event.project()) {
            Ok(Some(_)) => create_with_status_step(
                project_id,
                payload,
                requested_status(payload.status),
            ),
            Ok(None) => no_such_project(project_id),
            Err(error) => StepView::Respond(failure_response(error)),
        },
        Stage::Completing => match event.issue() {
            Ok(row) => StepView::Respond(success_response(STATUS_CREATED, row)),
            Err(error) => StepView::Respond(failure_response(error)),
        },
        _ => out_of_turn(),
    }
}

/// What `update_issue` decides.
pub open spec fn update_issue_step(
    stage: Stage,
    project_id: i32,
    issue_id: i32,
    payload: IssueChangesView,
    event: StoreEventView,
) -> StepView<IssueView> {
    match stage {
        Stage::Connecting => match event.connection() {
            Err(error) => StepView::Respond(failure_response(error)),
            Ok(_) => StepView::Ask {
                query: QueryView::FindProject { id: project_id },
                next: Stage::FindingProject,
            },
        },
        Stage::FindingProject => match optional_outcome(event.project()) {
            Ok(Some(_)) => if payload.is_empty() {
                StepView::Respond(
                    error_response(
                        STATUS_BAD_REQUEST,
                        "At least one field must be provided for update."@,
                    ),
                )
            } else {
                StepView::Ask {
                    query: QueryView::GetIssue { id: issue_id },
                    next: Stage::FindingIssue,
                }
            },
            Ok(None) => no_such_project(project_id),
            Err(error) => StepView::Respond(failure_response(error)),
        },
        Stage::FindingIssue => match event.issue() {
            Ok(issue) => if issue.project_id != project_id {
                StepView::Respond(error_response(STATUS_NOT_FOUND, foreign_issue()))
            } else {
                update_with_status_step(issue.id, payload, updated_status(payload.status))
            },
            Err(error) => StepView::Respond(failure_response(error)),
        },
        Stage::Completing => match event.issue() {
            Ok(row) => StepView::Respond(success_response(STATUS_OK, row)),
            Err(error) => StepView::Respond(failure_response(error)),
        },
    }
}

/// What `delete_issue` decides.
pub open spec fn delete_issue_step(
    stage: Stage,
    project_id: i32,
    issue_id: i32,
    event: StoreEventView,
) -> StepView<DeleteResponseView> {
    match stage {
        Stage::Connecting => match event.connection() {
            Err(error) => StepView::Respond(failure_response(error)),
            Ok(_) => StepView::Ask {
                query: QueryView::FindProject { id: project_id },
                next: Stage::FindingProject,
            },
        },
        Stage::FindingProject => match optional_outcome(event.project()) {
            Ok(Some(_)) => StepView::Ask {
                query: QueryView::GetIssue { id: issue_id },
                next: Stage::FindingIssue,
            },
            Ok(None) => no_such_project(project_id),
            Err(error) => StepView::Respond(failure_response(error)),
        },
        Stage::FindingIssue => match event.issue() {
            Ok(issue) => if issue.project_id != project_id {
                StepView::Respond(error_response(STATUS_NOT_FOUND, foreign_issue()))
            } else {
                StepView::Ask {
                    query: QueryView::DeleteIssue { id: issue_id },
                    next: Stage::Completing,
                }
            },
            Err(error) => StepView::Respond(failure_response(error)),
        },
        Stage::Completing => match event.affected() {
            Ok(count) => if count > 0 {
                StepView::Respond(
                    success_response(
                        STATUS_OK,
                        DeleteResponseView { success: true, message: issue_deleted(issue_id) },
                    ),
                )
            } else {
                StepView::Respond(error_response(STATUS_NOT_FOUND, issue_not_found(issue_id)))
            },
            Err(error) => StepView::Respond(failure_response(error)),
        },
    }
}

impl IssueResponse {
    /// Shows an issue row as it is.
    pub fn of(issue: Issue) -> (out: Self)
        ensures
            out@ == issue@,
    {
        IssueResponse {
            id: issue.id,
            project_id: issue.project_id,
            title: issue.title,
            description: issue.description,
            created_by: issue.created_by,
            assigned_to: issue.assigned_to,
            status: issue.status,
            is_open: issue.is_open,
        }
    }
}

impl UpdateIssueRequest {
    /// Tells whether this request names no field.
    pub fn is_empty(&self) -> (out: bool)
        ensures
            out == self@.is_empty(),
    {
        self.title.is_none() && self.description.is_none() && self.assigned_to.is_none()
            && self.status.is_none() && self.is_open.is_none()
    }

    /// The status that this request sends, in lowercase, where it sends
    /// one.
    pub fn lowered_status(&self) -> (out: Option<String>)
        ensures
            out.deep_view() == updated_status(self@.status),
    {
        match &self.status {
            Some(status) => Some(to_lowercase(status.as_str())),
            None => None,
        }
    }

    /// The changes that this request names, under the given status in place
    /// of its own.
    pub fn changes(&self, status: Option<String>) -> (out: IssueChanges)
        ensures
            out@ == self@.with_status(status.deep_view()),
    {
        let assigned_to = match &self.assigned_to {
            Some(assignee) => Some(clone_optional(assignee)),
            None => None,
        };
        IssueChanges {
            title: clone_optional(&self.title),
            description: clone_optional(&self.description),
            assigned_to,
            status,
            is_open: self.is_open,
        }
    }
}

/// Shows a list of issue rows as they are, in the order they came in.
pub fn issue_responses(issues: &Vec<Issue>) -> (out: Vec<IssueResponse>)
    ensures
        out.deep_view() == issues.deep_view(),
{
    let mut out: Vec<IssueResponse> = Vec::new();
    let mut i: usize = 0;
    while i < issues.len()
        invariant
            i <= issues.len(),
            out.len() == i,
            forall|k: int| 0 <= k < i ==> out[k]@ == issues[k]@,
        decreases issues.len() - i,
    {
        let row = &issues[i];
        out.push(
            IssueResponse {
                id: row.id,
                project_id: row.project_id,
                title: row.title.clone(),
                description: row.description.clone(),
                created_by: row.created_by.clone(),
                assigned_to: clone_optional(&row.assigned_to),
                status: row.status.clone(),
                is_open: row.is_open,
            },
        );
        i += 1;
    }
    assert(out.deep_view() =~= issues.deep_view());
    out
}

/// Tells whether an issue can be created with the given status.
pub fn valid_status(status: &str) -> (out: bool)
    ensures
        out == is_valid_status(status@),
{
    same_text(status, "open") || same_text(status, "in_progress") || same_text(status, "resolved")
        || same_text(status, "closed")
}

/// The status a new issue gets: the one that was sent, in lowercase, and
/// `open` where none was sent.
pub fn normalize_status(status: &Option<String>) -> (out: String)
    ensures
        out@ == requested_status(status.deep_view()),
{
    match status {
        Some(status) => to_lowercase(status.as_str()),
        None => "open".to_owned(),
    }
}

/// Lists the issues of a project. The project is looked up first: one that
/// does not exist is reported under status 404, and its issues are not
/// asked for.
pub fn get_project_issues(stage: Stage, project_id: i32, event: StoreEvent) -> (step: Step<
    Vec<IssueResponse>,
>)
    ensures
        step@ == get_project_issues_step(stage, project_id, event@),
        step@.advances(stage),
{
    match stage {
        Stage::Connecting => match event.into_connection() {
            Err(error) => Step::Respond(failure(error)),
            Ok(_) => Step::Ask {
                query: Project::find_by_id(project_id),
                next: Stage::FindingProject,
            },
        },
        Stage::FindingProject => match optional(event.into_project()) {
            Ok(Some(_)) => Step::Ask {
                query: Issue::get_by_project(project_id),
                next: Stage::Completing,
            },
            Ok(None) => project_missing(project_id),
            Err(error) => Step::Respond(failure(error)),
        },
        Stage::Completing => match event.into_issues() {
            Ok(rows) => Step::Respond(Response::succeed(STATUS_OK, issue_responses(&rows))),
            Err(error) => Step::Respond(failure(error)),
        },
        _ => refuse_stage(),
    }
}

/// Decides what becomes of a new issue once its status is at hand in
/// lowercase: with a valid one the issue is stored, as open; with another
/// the request is refused under status 400.
pub fn create_issue_with_status(project_id: i32, payload: &CreateIssueRequest, status: &str) -> (step:
    Step<IssueResponse>)
    ensures
        step@ == create_with_status_step(project_id, payload@, status@),
{
    if valid_status(status) {
        let assigned_to = match &payload.assigned_to {
            Some(name) => Some(name.as_str()),
            None => None,
        };
        Step::Ask {
            query: Issue::create(
                project_id,
                payload.title.as_str(),
                payload.description.as_str(),
                payload.created_by.as_str(),
                assigned_to,
                status,
            ),
            next: Stage::Completing,
        }
    } else {
        status_refused()
    }
}

/// Decides what becomes of an update of `issue` once its status, where it
/// sends one, is at hand in lowercase: with none, or a valid one, the
/// changes are asked for under that status; with another the request is
/// refused under status 400.
pub fn update_issue_with_status(
    issue: &Issue,
    payload: &UpdateIssueRequest,
    status: Option<String>,
) -> (step: Step<IssueResponse>)
    ensures
        step@ == update_with_status_step(issue.id, payload@, status.deep_view()),
{
    let acceptable = match &status {
        Some(sent) => valid_status(sent.as_str()),
        None => true,
    };
    if acceptable {
        Step::Ask { query: issue.update(payload.changes(status)), next: Stage::Completing }
    } else {
        status_refused()
    }
}

/// Creates an issue under a project. The project is looked up first: one
/// that does not exist is reported under status 404, whatever the request
/// holds. Then the status is checked, and one that is not valid is refused
/// under status 400. The issue is stored as open, and the row that the store
/// hands back is shown as it is, under status 201.
pub fn create_issue(
    stage: Stage,
    project_id: i32,
    payload: &CreateIssueRequest,
    event: StoreEvent,
) -> (step: Step<IssueResponse>)
    ensures
        step@ == create_issue_step(stage, project_id, payload@, event@),
        step@.advances(stage),
{
    match stage {
        Stage::Connecting => match event.into_connection() {
            Err(error) => Step::Respond(failure(error)),
            Ok(_) => Step::Ask {
                query: Project::find_by_id(project_id),
                next: Stage::FindingProject,
            },
        },
        Stage::FindingProject => match optional(event.into_project()) {
            Ok(Some(_)) => {
                let status = normalize_status(&payload.status);
                create_issue_with_status(project_id, payload, status.as_str())
            },
            Ok(None) => project_missing(project_id),
            Err(error) => Step::Respond(failure(error)),
        },
        Stage::Completing => match event.into_issue() {
            Ok(row) => Step::Respond(Response::succeed(STATUS_CREATED, IssueResponse::of(row))),
            Err(error) => Step::Respond(failure(error)),
        },
        _ => refuse_stage(),
    }
}

/// The answer that refuses a status which is not among the valid ones.
fn status_refused<T: DeepView>() -> (out: Step<T>)
    ensures
        out@ == StepView::<T::V>::Respond(error_response(STATUS_BAD_REQUEST, invalid_status())),
{
    Step::Respond(
        Response::fail(
            STATUS_BAD_REQUEST,
            "Invalid status value. Allowed values: [\"open\", \"in_progress\", \"resolved\", \"closed\"]".to_owned(),
        ),
    )
}

/// The answer that reports an issue filed under another project than the
/// request names.
fn issue_elsewhere<T: DeepView>() -> (out: Step<T>)
    ensures
        out@ == StepView::<T::V>::Respond(error_response(STATUS_NOT_FOUND, foreign_issue())),
{
    Step::Respond(
        Response::fail(STATUS_NOT_FOUND, "Issue does not belong to this project".to_owned()),
    )
}

/// Updates an issue. The project is looked up first: one that does not
/// exist is reported under status 404. A request that names no field is
/// refused under status 400. Then the issue is read: one that does not
/// exist, and one that is filed under another project, are reported under
/// status 404, whatever the request sends. Only then is the status looked
/// at, and one that is not valid refused under status 400. Otherwise the
/// named fields are replaced, the status in lowercase, and the row that the
/// store hands back is shown as it is, under status 200.
pub fn update_issue(
    stage: Stage,
    project_id: i32,
    issue_id: i32,
    payload: &UpdateIssueRequest,
    event: StoreEvent,
) -> (step: Step<IssueResponse>)
    ensures
        step@ == update_issue_step(stage, project_id, issue_id, payload@, event@),
        step@.advances(stage),
{
    match stage {
        Stage::Connecting => match event.into_connection() {
            Err(error) => Step::Respond(failure(error)),
            Ok(_) => Step::Ask {
                query: Project::find_by_id(project_id),
                next: Stage::FindingProject,
            },
        },
        Stage::FindingProject => match optional(event.into_project()) {
            Ok(Some(_)) => {
                if payload.is_empty() {
                    Step::Respond(
                        Response::fail(
                            STATUS_BAD_REQUEST,
                            "At least one field must be provided for update.".to_owned(),
                        ),
                    )
                } else {
                    Step::Ask { query: Issue::get_by_id(issue_id), next: Stage::FindingIssue }
                }
            },
            Ok(None) => project_missing(project_id),
            Err(error) => Step::Respond(failure(error)),
        },
        Stage::FindingIssue => match event.into_issue() {
            Ok(issue) => {
                if issue.project_id != project_id {
                    issue_elsewhere()
                } else {
                    update_issue_with_status(&issue, payload, payload.lowered_status())
                }
            },
            Err(error) => Step::Respond(failure(error)),
        },
        Stage::Completing => match event.into_issue() {
            Ok(row) => Step::Respond(Response::succeed(STATUS_OK, IssueResponse::of(row))),
            Err(error) => Step::Respond(failure(error)),
        },
    }
}

/// Deletes an issue. The project is looked up first, then the issue: a
/// project that does not exist, and an issue that is filed under another
/// project, are reported under status 404. So is an issue that was gone
/// when the store came to delete it.
pub fn delete_issue(stage: Stage, project_id: i32, issue_id: i32, event: StoreEvent) -> (step: Step<
    DeleteResponse,
>)
    ensures
        step@ == delete_issue_step(stage, project_id, issue_id, event@),
        step@.advances(stage),
{
    match stage {
        Stage::Connecting => match event.into_connection() {
            Err(error) => Step::Respond(failure(error)),
            Ok(_) => Step::Ask {
                query: Project::find_by_id(project_id),
                next: Stage::FindingProject,
            },
        },
        Stage::FindingProject => match optional(event.into_project()) {
            Ok(Some(_)) => Step::Ask {
                query: Issue::get_by_id(issue_id),
                next: Stage::FindingIssue,
            },
            Ok(None) => project_missing(project_id),
            Err(error) => Step::Respond(failure(error)),
        },
        Stage::FindingIssue => match event.into_issue() {
            Ok(issue) => {
                if issue.project_id != project_id {
                    issue_elsewhere()
                } else {
                    Step::Ask { query: Issue::delete(issue_id), next: Stage::Completing }
                }
            },
            Err(error) => Step::Respond(failure(error)),
        },
        Stage::Completing => match event.into_affected() {
            Ok(count) => {
                if count > 0 {
                    let mut message = "Issue ".to_owned();
                    push_decimal(&mut message, issue_id);
                    message.append(" successfully deleted");
                    Step::Respond(
                        Response::succeed(STATUS_OK, DeleteResponse { success: true, message }),
                    )
                } else {
                    let mut message = "Issue ".to_owned();
                    push_decimal(&mut message, issue_id);
                    message.append(" not found");
                    Step::Respond(Response::fail(STATUS_NOT_FOUND, message))
                }
            },
            Err(error) => Step::Respond(failure(error)),
        },
    }
}

/// `get_project_issues` as a function of stage and event, for one request.
pub open spec fn get_project_issues_handler(project_id: i32) -> spec_fn(
    Stage,
    StoreEventView,
) -> StepView<Seq<IssueView>> {
    |stage: Stage, event: StoreEventView| get_project_issues_step(stage, project_id, event)
}

/// `create_issue` as a function of stage and event, for one request.
pub open spec fn create_issue_handler(project_id: i32, payload: CreateIssueRequestView) -> spec_fn(
    Stage,
    StoreEventView,
) -> StepView<IssueView> {
    |stage: Stage, event: StoreEventView| create_issue_step(stage, project_id, payload, event)
}

/// `update_issue` as a function of stage and event, for one request.
pub open spec fn update_issue_handler(
    project_id: i32,
    issue_id: i32,
    payload: IssueChangesView,
) -> spec_fn(Stage, StoreEventView) -> StepView<IssueView> {
    |stage: Stage, event: StoreEventView|
        update_issue_step(stage, project_id, issue_id, payload, event)
}

/// `delete_issue` as a function of stage and event, for one request.
pub open spec fn delete_issue_handler(project_id: i32, issue_id: i32) -> spec_fn(
    Stage,
    StoreEventView,
) -> StepView<DeleteResponseView> {
    |stage: Stage, event: StoreEventView| delete_issue_step(stage, project_id, issue_id, event)
}

/// The events of an exchange in which a connection was had and the project
/// that the request names was not found.
pub open spec fn project_is_missing(events: Seq<StoreEventView>) -> bool {
    &&& events.len() >= 2
    &&& events[0] == StoreEventView::Connected
    &&& events[1] == StoreEventView::Failed(DbErrorView::NotFound)
}

/// The events of an exchange in which a connection was had and the project
/// that the request names was found.
pub open spec fn project_is_there(events: Seq<StoreEventView>) -> bool {
    &&& events.len() >= 2
    &&& events[0] == StoreEventView::Connected
    &&& events[1] is Project
}

/// An issue cannot be created under a project that does not exist: the
/// answer is 404 whatever the request holds, valid or not, and the store is
/// asked for nothing but the project.
pub proof fn lemma_issue_under_missing_project(
    project_id: i32,
    payload: CreateIssueRequestView,
    events: Seq<StoreEventView>,
)
    requires
        project_is_missing(events),
    ensures
        answer(create_issue_handler(project_id, payload), Stage::Connecting, events) == Some(
            error_response::<IssueView>(STATUS_NOT_FOUND, project_not_found(project_id)),
        ),
        asked(create_issue_handler(project_id, payload), Stage::Connecting, events) == seq![
            QueryView::FindProject { id: project_id },
        ],
{
    let handler = create_issue_handler(project_id, payload);
    let rest = events.drop_first();
    assert(rest[0] == events[1]);
    assert(answer(handler, Stage::FindingProject, rest) == Some(
        error_response::<IssueView>(STATUS_NOT_FOUND, project_not_found(project_id)),
    ));
    assert(asked(handler, Stage::FindingProject, rest) =~= Seq::empty());
    assert(asked(handler, Stage::Connecting, events) =~= seq![
        QueryView::FindProject { id: project_id },
    ]);
}

/// An issue cannot be created with a status that is not among the valid
/// ones, compared in lowercase: under a project that exists the answer is
/// 400 with the message that lists them, and nothing is stored.
pub proof fn lemma_invalid_status_is_refused(
    project_id: i32,
    payload: CreateIssueRequestView,
    events: Seq<StoreEventView>,
)
    requires
        project_is_there(events),
        !is_valid_status(requested_status(payload.status)),
    ensures
        answer(create_issue_handler(project_id, payload), Stage::Connecting, events) == Some(
            error_response::<IssueView>(STATUS_BAD_REQUEST, invalid_status()),
        ),
        asked(create_issue_handler(project_id, payload), Stage::Connecting, events) == seq![
            QueryView::FindProject { id: project_id },
        ],
{
    let handler = create_issue_handler(project_id, payload);
    let rest = events.drop_first();
    assert(rest[0] == events[1]);
    assert(answer(handler, Stage::FindingProject, rest) == Some(
        error_response::<IssueView>(STATUS_BAD_REQUEST, invalid_status()),
    ));
    assert(asked(handler, Stage::FindingProject, rest) =~= Seq::empty());
    assert(asked(handler, Stage::Connecting, events) =~= seq![
        QueryView::FindProject { id: project_id },
    ]);
}

/// A request that names no status creates an issue with status `open`.
pub proof fn lemma_status_defaults_to_open(
    project_id: i32,
    payload: CreateIssueRequestView,
    event: StoreEventView,
)
    requires
        payload.status is None,
        event is Project,
    ensures
        create_issue_step(Stage::FindingProject, project_id, payload, event) matches StepView::Ask {
            query: QueryView::InsertIssue(row),
            ..
        } && row.status == "open"@,
{
}

/// Whatever status an issue is created with, it is stored as open: no
/// statement that `create_issue` ever asks for stores an issue that is not.
pub proof fn lemma_new_issue_is_open(
    stage: Stage,
    project_id: i32,
    payload: CreateIssueRequestView,
    event: StoreEventView,
)
    ensures
        create_issue_step(stage, project_id, payload, event) matches StepView::Ask {
            query: QueryView::InsertIssue(row),
            ..
        } ==> row.is_open,
{
}

/// The answer to a created issue shows the row that the store handed back,
/// unchanged: an issue that the store holds as open is shown as open.
pub proof fn lemma_created_issue_is_shown_as_stored(
    project_id: i32,
    payload: CreateIssueRequestView,
    row: IssueView,
)
    ensures
        create_issue_step(Stage::Completing, project_id, payload, StoreEventView::Issue(row))
            == StepView::Respond(success_response(STATUS_CREATED, row)),
{
}

/// The events of an exchange in which a connection was had, the project
/// that the request names was found, and the issue that it names was found
/// to be filed under another project.
pub open spec fn issue_is_elsewhere(project_id: i32, events: Seq<StoreEventView>) -> bool {
    &&& events.len() >= 3
    &&& events[0] == StoreEventView::Connected
    &&& events[1] is Project
    &&& events[2] matches StoreEventView::Issue(issue) && issue.project_id != project_id
}

/// The status of an issue stays among the valid ones, in lowercase: no
/// statement that `create_issue` or `update_issue` ever asks for writes
/// another.
pub proof fn lemma_written_status_is_valid(
    stage: Stage,
    project_id: i32,
    issue_id: i32,
    creation: CreateIssueRequestView,
    changes: IssueChangesView,
    event: StoreEventView,
)
    ensures
        create_issue_step(stage, project_id, creation, event) matches StepView::Ask {
            query: QueryView::InsertIssue(row),
            ..
        } ==> is_valid_status(row.status),
        update_issue_step(stage, project_id, issue_id, changes, event) matches StepView::Ask {
            query: QueryView::UpdateIssue { changes: asked, .. },
            ..
        } ==> (asked.status matches Some(status) ==> is_valid_status(status)),
{
}

/// An update changes nothing but what it names, and nothing in what it
/// names but the case of the status: title, description, assignee and the
/// open flag are asked for as they were sent.
pub proof fn lemma_update_asks_for_what_was_sent(
    stage: Stage,
    project_id: i32,
    issue_id: i32,
    payload: IssueChangesView,
    event: StoreEventView,
)
    ensures
        update_issue_step(stage, project_id, issue_id, payload, event) matches StepView::Ask {
            query: QueryView::UpdateIssue { changes, .. },
            ..
        } ==> {
            &&& changes.title == payload.title
            &&& changes.description == payload.description
            &&& changes.assigned_to == payload.assigned_to
            &&& changes.is_open == payload.is_open
            &&& changes.status == updated_status(payload.status)
        },
{
}

/// The events of an exchange in which a connection was had, and the project
/// and the issue that the request names were found, the issue filed under
/// that project.
pub open spec fn issue_is_there(project_id: i32, events: Seq<StoreEventView>) -> bool {
    &&& events.len() >= 3
    &&& events[0] == StoreEventView::Connected
    &&& events[1] is Project
    &&& events[2] matches StoreEventView::Issue(issue) && issue.project_id == project_id
}

/// An issue cannot be given a status that is not among the valid ones,
/// compared in lowercase: for an issue of the project the answer is 400
/// with the message that lists them, and the store is asked for nothing but
/// the project and the issue.
pub proof fn lemma_invalid_status_is_not_written(
    project_id: i32,
    issue_id: i32,
    payload: IssueChangesView,
    events: Seq<StoreEventView>,
)
    requires
        issue_is_there(project_id, events),
        !status_is_acceptable(payload.status),
    ensures
        answer(update_issue_handler(project_id, issue_id, payload), Stage::Connecting, events)
            == Some(error_response::<IssueView>(STATUS_BAD_REQUEST, invalid_status())),
        asked(update_issue_handler(project_id, issue_id, payload), Stage::Connecting, events)
            == seq![
            QueryView::FindProject { id: project_id },
            QueryView::GetIssue { id: issue_id },
        ],
{
    let handler = update_issue_handler(project_id, issue_id, payload);
    let rest = events.drop_first();
    let last = rest.drop_first();
    assert(rest[0] == events[1]);
    assert(last[0] == events[2]);
    assert(!payload.is_empty());
    assert(answer(handler, Stage::FindingIssue, last) == Some(
        error_response::<IssueView>(STATUS_BAD_REQUEST, invalid_status()),
    ));
    assert(asked(handler, Stage::FindingIssue, last) =~= Seq::empty());
    assert(answer(handler, Stage::FindingProject, rest) == answer(
        handler,
        Stage::FindingIssue,
        last,
    ));
    assert(asked(handler, Stage::FindingProject, rest) =~= seq![
        QueryView::GetIssue { id: issue_id },
    ]);
    assert(asked(handler, Stage::Connecting, events) =~= seq![
        QueryView::FindProject { id: project_id },
        QueryView::GetIssue { id: issue_id },
    ]);
}

/// The events of an exchange in which a connection was had, the project
/// that the request names was found, and the issue that it names was not.
pub open spec fn issue_is_missing(events: Seq<StoreEventView>) -> bool {
    &&& events.len() >= 3
    &&& events[0] == StoreEventView::Connected
    &&& events[1] is Project
    &&& events[2] == StoreEventView::Failed(DbErrorView::NotFound)
}

/// An issue that does not exist is neither updated nor deleted: the answer
/// is 404, whatever an update that names a field sends, and the store is
/// asked for nothing but the project and the issue.
pub proof fn lemma_missing_issue_is_not_found(
    project_id: i32,
    issue_id: i32,
    payload: IssueChangesView,
    events: Seq<StoreEventView>,
)
    requires
        issue_is_missing(events),
    ensures
        !payload.is_empty() ==> answer(
            update_issue_handler(project_id, issue_id, payload),
            Stage::Connecting,
            events,
        ) == Some(error_response::<IssueView>(STATUS_NOT_FOUND, "Record not found"@)),
        !payload.is_empty() ==> asked(
            update_issue_handler(project_id, issue_id, payload),
            Stage::Connecting,
            events,
        ) == seq![QueryView::FindProject { id: project_id }, QueryView::GetIssue { id: issue_id }],
        answer(delete_issue_handler(project_id, issue_id), Stage::Connecting, events) == Some(
            error_response::<DeleteResponseView>(STATUS_NOT_FOUND, "Record not found"@),
        ),
        asked(delete_issue_handler(project_id, issue_id), Stage::Connecting, events) == seq![
            QueryView::FindProject { id: project_id },
            QueryView::GetIssue { id: issue_id },
        ],
{
    let rest = events.drop_first();
    let last = rest.drop_first();
    assert(rest[0] == events[1]);
    assert(last[0] == events[2]);
    let removal = delete_issue_handler(project_id, issue_id);
    assert(answer(removal, Stage::FindingIssue, last) == Some(
        error_response::<DeleteResponseView>(STATUS_NOT_FOUND, "Record not found"@),
    ));
    assert(asked(removal, Stage::FindingIssue, last) =~= Seq::empty());
    assert(answer(removal, Stage::FindingProject, rest) == answer(
        removal,
        Stage::FindingIssue,
        last,
    ));
    assert(asked(removal, Stage::FindingProject, rest) =~= seq![
        QueryView::GetIssue { id: issue_id },
    ]);
    assert(asked(removal, Stage::Connecting, events) =~= seq![
        QueryView::FindProject { id: project_id },
        QueryView::GetIssue { id: issue_id },
    ]);
    if !payload.is_empty() {
        let update = update_issue_handler(project_id, issue_id, payload);
        assert(answer(update, Stage::FindingIssue, last) == Some(
            error_response::<IssueView>(STATUS_NOT_FOUND, "Record not found"@),
        ));
        assert(asked(update, Stage::FindingIssue, last) =~= Seq::empty());
        assert(answer(update, Stage::FindingProject, rest) == answer(
            update,
            Stage::FindingIssue,
            last,
        ));
        assert(asked(update, Stage::FindingProject, rest) =~= seq![
            QueryView::GetIssue { id: issue_id },
        ]);
        assert(asked(update, Stage::Connecting, events) =~= seq![
            QueryView::FindProject { id: project_id },
            QueryView::GetIssue { id: issue_id },
        ]);
    }
}

/// An issue is not updated through a project that it is not filed under:
/// though the issue exists the answer is 404, whatever the request sends
/// once it names a field, and the store is asked for nothing but the
/// project and the issue.
pub proof fn lemma_foreign_issue_is_not_updated(
    project_id: i32,
    issue_id: i32,
    payload: IssueChangesView,
    events: Seq<StoreEventView>,
)
    requires
        issue_is_elsewhere(project_id, events),
        !payload.is_empty(),
    ensures
        answer(update_issue_handler(project_id, issue_id, payload), Stage::Connecting, events)
            == Some(error_response::<IssueView>(STATUS_NOT_FOUND, foreign_issue())),
        asked(update_issue_handler(project_id, issue_id, payload), Stage::Connecting, events)
            == seq![
            QueryView::FindProject { id: project_id },
            QueryView::GetIssue { id: issue_id },
        ],
{
    let handler = update_issue_handler(project_id, issue_id, payload);
    let rest = events.drop_first();
    let last = rest.drop_first();
    assert(rest[0] == events[1]);
    assert(last[0] == events[2]);
    assert(answer(handler, Stage::FindingIssue, last) == Some(
        error_response::<IssueView>(STATUS_NOT_FOUND, foreign_issue()),
    ));
    assert(asked(handler, Stage::FindingIssue, last) =~= Seq::empty());
    assert(answer(handler, Stage::FindingProject, rest) == answer(
        handler,
        Stage::FindingIssue,
        last,
    ));
    assert(asked(handler, Stage::FindingProject, rest) =~= seq![
        QueryView::GetIssue { id: issue_id },
    ]);
    assert(asked(handler, Stage::Connecting, events) =~= seq![
        QueryView::FindProject { id: project_id },
        QueryView::GetIssue { id: issue_id },
    ]);
}

/// An issue is not deleted through a project that it is not filed under:
/// though the issue exists the answer is 404, and the store is asked for
/// nothing but the project and the issue.
pub proof fn lemma_foreign_issue_is_not_deleted(
    project_id: i32,
    issue_id: i32,
    events: Seq<StoreEventView>,
)
    requires
        issue_is_elsewhere(project_id, events),
    ensures
        answer(delete_issue_handler(project_id, issue_id), Stage::Connecting, events) == Some(
            error_response::<DeleteResponseView>(STATUS_NOT_FOUND, foreign_issue()),
        ),
        asked(delete_issue_handler(project_id, issue_id), Stage::Connecting, events) == seq![
            QueryView::FindProject { id: project_id },
            QueryView::GetIssue { id: issue_id },
        ],
{
    let handler = delete_issue_handler(project_id, issue_id);
    let rest = events.drop_first();
    let last = rest.drop_first();
    assert(rest[0] == events[1]);
    assert(last[0] == events[2]);
    assert(answer(handler, Stage::FindingIssue, last) == Some(
        error_response::<DeleteResponseView>(STATUS_NOT_FOUND, foreign_issue()),
    ));
    assert(asked(handler, Stage::FindingIssue, last) =~= Seq::empty());
    assert(answer(handler, Stage::FindingProject, rest) == answer(
        handler,
        Stage::FindingIssue,
        last,
    ));
    assert(asked(handler, Stage::FindingProject, rest) =~= seq![
        QueryView::GetIssue { id: issue_id },
    ]);
    assert(asked(handler, Stage::Connecting, events) =~= seq![
        QueryView::FindProject { id: project_id },
        QueryView::GetIssue { id: issue_id },
    ]);
}

/// Once a project is gone, so are its issues to a client: a listing under a
/// project that the store does not find is answered with 404, and the store
/// is not asked for any issue.
pub proof fn lemma_no_issues_without_project(project_id: i32, events: Seq<StoreEventView>)
    requires
        project_is_missing(events),
    ensures
        answer(get_project_issues_handler(project_id), Stage::Connecting, events) == Some(
            error_response::<Seq<IssueView>>(STATUS_NOT_FOUND, project_not_found(project_id)),
        ),
        asked(get_project_issues_handler(project_id), Stage::Connecting, events) == seq![
            QueryView::FindProject { id: project_id },
        ],
{
    let handler = get_project_issues_handler(project_id);
    let rest = events.drop_first();
    assert(rest[0] == events[1]);
    assert(answer(handler, Stage::FindingProject, rest) == Some(
        error_response::<Seq<IssueView>>(STATUS_NOT_FOUND, project_not_found(project_id)),
    ));
    assert(asked(handler, Stage::FindingProject, rest) =~= Seq::empty());
    assert(asked(handler, Stage::Connecting, events) =~= seq![
        QueryView::FindProject { id: project_id },
    ]);
}

/// Every request on issues is answered before its handler has been handed
/// four events, whatever the store says.
pub proof fn lemma_issue_requests_are_answered(
    project_id: i32,
    issue_id: i32,
    creation: CreateIssueRequestView,
    changes: IssueChangesView,
    events: Seq<StoreEventView>,
)
    requires
        events.len() >= 4,
    ensures
        answer(get_project_issues_handler(project_id), Stage::Connecting, events) is Some,
        answer(create_issue_handler(project_id, creation), Stage::Connecting, events) is Some,
        answer(update_issue_handler(project_id, issue_id, changes), Stage::Connecting, events)
            is Some,
        answer(delete_issue_handler(project_id, issue_id), Stage::Connecting, events) is Some,
{
    lemma_every_exchange_ends(get_project_issues_handler(project_id), events);
    lemma_every_exchange_ends(create_issue_handler(project_id, creation), events);
    lemma_every_exchange_ends(update_issue_handler(project_id, issue_id, changes), events);
    lemma_every_exchange_ends(delete_issue_handler(project_id, issue_id), events);
}

} // verus!

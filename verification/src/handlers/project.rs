//! Handlers of the requests on projects.
//!
//! A handler is called once for every event of the exchange: first with the
//! outcome of asking for a connection, at [`Stage::Connecting`], then with
//! the outcome of each statement it asked for, at the stage it named. It
//! decides from the stage, the request and the event alone.

use vstd::prelude::*;
use crate::error::{failure, failure_response};
use crate::handlers::api_response::{
    error_response, success_response, ApiResponseView, DeleteResponseView, Response,
    STATUS_BAD_REQUEST, STATUS_CREATED, STATUS_NOT_FOUND, STATUS_OK,
};
use crate::models::project::{NewProjectView, Project, ProjectView, UpdateProject, UpdateProjectView};
use crate::store::{
    answer, asked, lemma_every_exchange_ends, optional, optional_outcome, out_of_turn,
    refuse_stage, QueryView, Stage, Step, StepView, StoreEvent, StoreEventView,
};
use crate::text::{decimal, is_blank, push_decimal};

verus! {

/// Body of a request to create a project.
#[derive(Debug, Clone, PartialEq, Eq)]
pub struct CreateProject {
    pub name: Option<String>,
    pub description: Option<String>,
}

/// Mathematical model of a [`CreateProject`].
pub struct CreateProjectView {
    pub name: Option<Seq<char>>,
    pub description: Option<Seq<char>>,
}

impl CreateProjectView {
    /// A name is missing when none was sent, or a blank one.
    pub open spec fn name_is_missing(self) -> bool {
        match self.name {
            Some(name) => is_blank(name),
            None => true,
        }
    }

    /// The row that the request asks to store: the name as it was sent, and
    /// the description, empty where none was sent.
    pub open spec fn row(self) -> NewProjectView {
        NewProjectView {
            name: self.name->0,
            description: match self.description {
                Some(description) => description,
                None => Seq::empty(),
            },
        }
    }
}

impl DeepView for CreateProject {
    type V = CreateProjectView;

    open spec fn deep_view(&self) -> CreateProjectView {
        CreateProjectView {
            name: self.name.deep_view(),
            description: self.description.deep_view(),
        }
    }
}

impl View for CreateProject {
    type V = CreateProjectView;

    open spec fn view(&self) -> CreateProjectView {
        self.deep_view()
    }
}

/// A project as it is shown to a client.
#[derive(Debug, Clone, PartialEq, Eq)]
pub struct ProjectResponse {
    pub id: i32,
    pub name: String,
    pub description: String,
}

impl DeepView for ProjectResponse {
    type V = ProjectView;

    open spec fn deep_view(&self) -> ProjectView {
        ProjectView { id: self.id, name: self.name@, description: self.description@ }
    }
}

impl View for ProjectResponse {
    type V = ProjectView;

    open spec fn view(&self) -> ProjectView {
        self.deep_view()
    }
}

/// Confirmation that a project was deleted.
#[derive(Debug, Clone, PartialEq, Eq)]
pub struct DeleteResponse {
    pub success: bool,
    pub message: String,
}

impl DeepView for DeleteResponse {
    type V = DeleteResponseView;

    open spec fn deep_view(&self) -> DeleteResponseView {
        DeleteResponseView { success: self.success, message: self.message@ }
    }
}

impl View for DeleteResponse {
    type V = DeleteResponseView;

    open spec fn view(&self) -> DeleteResponseView {
        self.deep_view()
    }
}

/// The most projects that a listing shows.
pub const LISTED_PROJECTS: i64 = 10;

/// The message that reports a project which does not exist.
pub open spec fn project_not_found(project_id: i32) -> Seq<char> {
    "Project with ID "@ + decimal(project_id as int) + " not found"@
}

/// The message that confirms the deletion of a project.
pub open spec fn project_deleted(project_id: i32) -> Seq<char> {
    "Project with ID "@ + decimal(project_id as int) + " successfully deleted"@
}

/// The answer that reports a project which does not exist.
pub open spec fn no_such_project<V>(project_id: i32) -> StepView<V> {
    StepView::Respond(error_response(STATUS_NOT_FOUND, project_not_found(project_id)))
}

/// What `create_project` decides.
pub open spec fn create_project_step(
    stage: Stage,
    payload: CreateProjectView,
    event: StoreEventView,
) -> StepView<ProjectView> {
    match stage {
        Stage::Connecting => match event.connection() {
            Err(error) => StepView::Respond(failure_response(error)),
            Ok(_) => if payload.name_is_missing() {
                StepView::Respond(error_response(STATUS_BAD_REQUEST, "Project name is required."@))
            } else {
                StepView::Ask {
                    query: QueryView::InsertProject(payload.row()),
                    next: Stage::Completing,
                }
            },
        },
        Stage::Completing => match event.project() {
            Ok(row) => StepView::Respond(success_response(STATUS_CREATED, row)),
            Err(error) => StepView::Respond(failure_response(error)),
        },
        _ => out_of_turn(),
    }
}

/// The first `limit` rows of a list, in their order: all of them where the
/// list holds no more, and none where the limit is not positive.
pub open spec fn first_rows<V>(rows: Seq<V>, limit: int) -> Seq<V> {
    if limit <= 0 {
        Seq::empty()
    } else if rows.len() <= limit {
        rows
    } else {
        rows.subrange(0, limit)
    }
}

/// What `get_projects` decides.
pub open spec fn get_projects_step(stage: Stage, event: StoreEventView) -> StepView<
    Seq<ProjectView>,
> {
    match stage {
        Stage::Connecting => match event.connection() {
            Err(error) => StepView::Respond(failure_response(error)),
            Ok(_) => StepView::Ask {
                query: QueryView::FirstProjects { limit: LISTED_PROJECTS },
                next: Stage::Completing,
            },
        },
        Stage::Completing => match event.projects() {
            Ok(rows) => StepView::Respond(
                success_response(STATUS_OK, first_rows(rows, LISTED_PROJECTS as int)),
            ),
            Err(error) => StepView::Respond(failure_response(error)),
        },
        _ => out_of_turn(),
    }
}

/// What `delete_project` decides.
pub open spec fn delete_project_step(stage: Stage, id: i32, event: StoreEventView) -> StepView<
    DeleteResponseView,
> {
    match stage {
        Stage::Connecting => match event.connection() {
            Err(error) => StepView::Respond(failure_response(error)),
            Ok(_) => StepView::Ask {
                query: QueryView::FindProject { id },
                next: Stage::FindingProject,
            },
        },
        Stage::FindingProject => match optional_outcome(event.project()) {
            Ok(Some(_)) => StepView::Ask {
                query: QueryView::DeleteProject { id },
                next: Stage::Completing,
            },
            Ok(None) => no_such_project(id),
            Err(error) => StepView::Respond(failure_response(error)),
        },
        Stage::Completing => match event.affected() {
            Ok(_) => StepView::Respond(
                success_response(
                    STATUS_OK,
                    DeleteResponseView { success: true, message: project_deleted(id) },
                ),
            ),
            Err(error) => StepView::Respond(failure_response(error)),
        },
        _ => out_of_turn(),
    }
}

/// What `update_project` decides.
pub open spec fn update_project_step(
    stage: Stage,
    project_id: i32,
    payload: UpdateProjectView,
    event: StoreEventView,
) -> StepView<ProjectView> {
    match stage {
        Stage::Connecting => match event.connection() {
            Err(error) => StepView::Respond(failure_response(error)),
            Ok(_) => StepView::Ask {
                query: QueryView::FindProject { id: project_id },
                next: Stage::FindingProject,
            },
        },
        Stage::FindingProject => match optional_outcome(event.project()) {
            Ok(Some(_)) => if payload.is_empty() {
                StepView::Respond(
                    error_response(
                        STATUS_BAD_REQUEST,
                        "At least one field must be provided for update."@,
                    ),
                )
            } else if payload.name_is_blank() {
                StepView::Respond(error_response(STATUS_BAD_REQUEST, "Project name is required."@))
            } else {
                StepView::Ask {
                    query: QueryView::UpdateProject { id: project_id, changes: payload },
                    next: Stage::Completing,
                }
            },
            Ok(None) => no_such_project(project_id),
            Err(error) => StepView::Respond(failure_response(error)),
        },
        Stage::Completing => match event.project() {
            Ok(row) => StepView::Respond(success_response(STATUS_OK, row)),
            Err(error) => StepView::Respond(failure_response(error)),
        },
        _ => out_of_turn(),
    }
}

impl ProjectResponse {
    /// Shows a project row as it is.
    pub fn of(project: Project) -> (out: Self)
        ensures
            out@ == project@,
    {
        ProjectResponse { id: project.id, name: project.name, description: project.description }
    }
}

/// Shows the first `limit` rows of a list of projects as they are, in the
/// order they came in.
pub fn project_responses(projects: &Vec<Project>, limit: i64) -> (out: Vec<ProjectResponse>)
    ensures
        out.deep_view() == first_rows(projects.deep_view(), limit as int),
        out.len() <= projects.len(),
        limit >= 0 ==> out.len() <= limit,
{
    let shown: usize = if limit <= 0 {
        0
    } else if projects.len() as u64 <= limit as u64 {
        projects.len()
    } else {
        limit as usize
    };
    let mut out: Vec<ProjectResponse> = Vec::new();
    let mut i: usize = 0;
    while i < shown
        invariant
            i <= shown <= projects.len(),
            out.len() == i,
            forall|k: int| 0 <= k < i ==> out[k]@ == projects[k]@,
        decreases shown - i,
    {
        let row = &projects[i];
        out.push(
            ProjectResponse {
                id: row.id,
                name: row.name.clone(),
                description: row.description.clone(),
            },
        );
        i += 1;
    }
    assert(out.deep_view() =~= first_rows(projects.deep_view(), limit as int));
    out
}

/// The answer that reports a project which does not exist.
pub fn project_missing<T: DeepView>(project_id: i32) -> (out: Step<T>)
    ensures
        out@ == no_such_project::<T::V>(project_id),
{
    let mut message = "Project with ID ".to_owned();
    push_decimal(&mut message, project_id);
    message.append(" not found");
    Step::Respond(Response::fail(STATUS_NOT_FOUND, message))
}

/// The answer that refuses a project without a name.
fn name_required<T: DeepView>() -> (out: Step<T>)
    ensures
        out@ == StepView::<T::V>::Respond(
            error_response(STATUS_BAD_REQUEST, "Project name is required."@),
        ),
{
    Step::Respond(Response::fail(STATUS_BAD_REQUEST, "Project name is required.".to_owned()))
}

/// Creates a project. With a connection at hand the name is checked, and
/// only a request with a name that is not blank reaches the store; the row
/// that the store then hands back is shown as it is, under status 201.
pub fn create_project(stage: Stage, payload: &CreateProject, event: StoreEvent) -> (step: Step<
    ProjectResponse,
>)
    ensures
        step@ == create_project_step(stage, payload@, event@),
        step@.advances(stage),
{
    match stage {
        Stage::Connecting => match event.into_connection() {
            Err(error) => Step::Respond(failure(error)),
            Ok(_) => {
                proof {
                    reveal_strlit("");
                }
                let description = match &payload.description {
                    Some(description) => description.as_str(),
                    None => "",
                };
                assert(description@ =~= payload@.row().description);
                match &payload.name {
                    Some(name) => match Project::create(name.as_str(), description) {
                        Ok(query) => Step::Ask { query, next: Stage::Completing },
                        Err(_) => name_required(),
                    },
                    None => name_required(),
                }
            },
        },
        Stage::Completing => match event.into_project() {
            Ok(row) => Step::Respond(Response::succeed(STATUS_CREATED, ProjectResponse::of(row))),
            Err(error) => Step::Respond(failure(error)),
        },
        _ => refuse_stage(),
    }
}

/// Lists projects: at most [`LISTED_PROJECTS`] of them are asked for, and
/// no more than that many of the rows that the store hands back are shown,
/// as they are and in their order, under status 200.
pub fn get_projects(stage: Stage, event: StoreEvent) -> (step: Step<Vec<ProjectResponse>>)
    ensures
        step@ == get_projects_step(stage, event@),
        step@.advances(stage),
{
    match stage {
        Stage::Connecting => match event.into_connection() {
            Err(error) => Step::Respond(failure(error)),
            Ok(_) => Step::Ask {
                query: Project::get_first_n(LISTED_PROJECTS),
                next: Stage::Completing,
            },
        },
        Stage::Completing => match event.into_projects() {
            Ok(rows) => Step::Respond(
                Response::succeed(STATUS_OK, project_responses(&rows, LISTED_PROJECTS)),
            ),
            Err(error) => Step::Respond(failure(error)),
        },
        _ => refuse_stage(),
    }
}

/// Deletes a project, and with it its issues. The project is looked up
/// first: one that does not exist is reported under status 404, and the
/// store is not asked to delete anything.
pub fn delete_project(stage: Stage, id: i32, event: StoreEvent) -> (step: Step<DeleteResponse>)
    ensures
        step@ == delete_project_step(stage, id, event@),
        step@.advances(stage),
{
    match stage {
        Stage::Connecting => match event.into_connection() {
            Err(error) => Step::Respond(failure(error)),
            Ok(_) => Step::Ask { query: Project::find_by_id(id), next: Stage::FindingProject },
        },
        Stage::FindingProject => match optional(event.into_project()) {
            Ok(Some(_)) => Step::Ask {
                query: Project::delete_by_id(id),
                next: Stage::Completing,
            },
            Ok(None) => project_missing(id),
            Err(error) => Step::Respond(failure(error)),
        },
        Stage::Completing => match event.into_affected() {
            Ok(_) => {
                let mut message = "Project with ID ".to_owned();
                push_decimal(&mut message, id);
                message.append(" successfully deleted");
                Step::Respond(
                    Response::succeed(STATUS_OK, DeleteResponse { success: true, message }),
                )
            },
            Err(error) => Step::Respond(failure(error)),
        },
        _ => refuse_stage(),
    }
}

/// Updates a project. The project is looked up first: one that does not
/// exist is reported under status 404. An update that names no field, and
/// one that sends a blank name, are refused under status 400. Otherwise the
/// named fields are replaced and the row that the store hands back is shown
/// as it is, under status 200.
pub fn update_project(stage: Stage, project_id: i32, payload: &UpdateProject, event: StoreEvent) -> (step: Step<ProjectResponse>)
    ensures
        step@ == update_project_step(stage, project_id, payload@, event@),
        step@.advances(stage),
{
    match stage {
        Stage::Connecting => match event.into_connection() {
            Err(error) => Step::Respond(failure(error)),
            Ok(_) => Step::Ask {
                query: Project::find_by_id(project_id),
                next: Stage::FindingProject,
            },
        },
        Stage::FindingProject => match optional(event.into_project()) {
            Ok(Some(_)) => {
                if payload.is_empty() {
                    Step::Respond(
                        Response::fail(
                            STATUS_BAD_REQUEST,
                            "At least one field must be provided for update.".to_owned(),
                        ),
                    )
                } else if payload.name_is_blank() {
                    name_required()
                } else {
                    Step::Ask {
                        query: Project::update(project_id, payload),
                        next: Stage::Completing,
                    }
                }
            },
            Ok(None) => project_missing(project_id),
            Err(error) => Step::Respond(failure(error)),
        },
        Stage::Completing => match event.into_project() {
            Ok(row) => Step::Respond(Response::succeed(STATUS_OK, ProjectResponse::of(row))),
            Err(error) => Step::Respond(failure(error)),
        },
        _ => refuse_stage(),
    }
}

/// `create_project` as a function of stage and event, for one request.
pub open spec fn create_project_handler(payload: CreateProjectView) -> spec_fn(
    Stage,
    StoreEventView,
) -> StepView<ProjectView> {
    |stage: Stage, event: StoreEventView| create_project_step(stage, payload, event)
}

/// `get_projects` as a function of stage and event.
pub open spec fn get_projects_handler() -> spec_fn(Stage, StoreEventView) -> StepView<
    Seq<ProjectView>,
> {
    |stage: Stage, event: StoreEventView| get_projects_step(stage, event)
}

/// `delete_project` as a function of stage and event, for one request.
pub open spec fn delete_project_handler(id: i32) -> spec_fn(Stage, StoreEventView) -> StepView<
    DeleteResponseView,
> {
    |stage: Stage, event: StoreEventView| delete_project_step(stage, id, event)
}

/// `update_project` as a function of stage and event, for one request.
pub open spec fn update_project_handler(project_id: i32, payload: UpdateProjectView) -> spec_fn(
    Stage,
    StoreEventView,
) -> StepView<ProjectView> {
    |stage: Stage, event: StoreEventView| update_project_step(stage, project_id, payload, event)
}

/// A project without a name, or with a blank one, is never stored: whatever
/// the events, the store is asked for nothing, and once a connection is had
/// the answer is 400.
pub proof fn lemma_nameless_project_is_refused(
    payload: CreateProjectView,
    events: Seq<StoreEventView>,
)
    requires
        payload.name_is_missing(),
    ensures
        asked(create_project_handler(payload), Stage::Connecting, events) == Seq::<
            QueryView,
        >::empty(),
        events.len() > 0 && events[0] == StoreEventView::Connected ==> answer(
            create_project_handler(payload),
            Stage::Connecting,
            events,
        ) == Some(
            error_response::<ProjectView>(STATUS_BAD_REQUEST, "Project name is required."@),
        ),
{
    let handler = create_project_handler(payload);
    assert(asked(handler, Stage::Connecting, events) =~= Seq::<QueryView>::empty());
}

/// A project passes through unchanged in both directions. The statement
/// that `create_project` asks for holds the name and the description that
/// were submitted, character for character, and the row that the store
/// hands back is shown as it is.
pub proof fn lemma_project_passes_unchanged(
    payload: CreateProjectView,
    row: ProjectView,
    events: Seq<StoreEventView>,
)
    requires
        !payload.name_is_missing(),
        events.len() >= 2,
        events[0] == StoreEventView::Connected,
        events[1] == StoreEventView::Project(row),
    ensures
        asked(create_project_handler(payload), Stage::Connecting, events) == seq![
            QueryView::InsertProject(payload.row()),
        ],
        payload.name == Some(payload.row().name),
        payload.description matches Some(description) ==> payload.row().description
            == description,
        payload.description is None ==> payload.row().description == Seq::<char>::empty(),
        answer(create_project_handler(payload), Stage::Connecting, events) == Some(
            success_response(STATUS_CREATED, row),
        ),
{
    let handler = create_project_handler(payload);
    let rest = events.drop_first();
    assert(rest[0] == events[1]);
    assert(answer(handler, Stage::Completing, rest) == Some(
        success_response(STATUS_CREATED, row),
    ));
    assert(asked(handler, Stage::Completing, rest) =~= Seq::empty());
    assert(asked(handler, Stage::Connecting, events) =~= seq![
        QueryView::InsertProject(payload.row()),
    ]);
}

/// A listing never shows more than [`LISTED_PROJECTS`] projects, whatever
/// the store hands back, and shows every row where there are no more.
pub proof fn lemma_listing_is_bounded(rows: Seq<ProjectView>, events: Seq<StoreEventView>)
    requires
        events.len() >= 2,
        events[0] == StoreEventView::Connected,
        events[1] == StoreEventView::Projects(rows),
    ensures
        asked(get_projects_handler(), Stage::Connecting, events) == seq![
            QueryView::FirstProjects { limit: LISTED_PROJECTS },
        ],
        answer(get_projects_handler(), Stage::Connecting, events) matches Some(response)
            && response.status == STATUS_OK && (response.body matches ApiResponseView::Success(
            list,
        ) && list.len() <= LISTED_PROJECTS && (rows.len() <= LISTED_PROJECTS ==> list == rows)),
{
    let handler = get_projects_handler();
    let rest = events.drop_first();
    assert(rest[0] == events[1]);
    assert(answer(handler, Stage::Completing, rest) == Some(
        success_response(STATUS_OK, first_rows(rows, LISTED_PROJECTS as int)),
    ));
    assert(asked(handler, Stage::Completing, rest) =~= Seq::empty());
    assert(asked(handler, Stage::Connecting, events) =~= seq![
        QueryView::FirstProjects { limit: LISTED_PROJECTS },
    ]);
}

/// An update that names neither a name nor a description changes nothing:
/// for a project that exists the answer is 400, and the store is asked for
/// nothing but the project.
pub proof fn lemma_empty_update_is_refused(
    project_id: i32,
    payload: UpdateProjectView,
    events: Seq<StoreEventView>,
)
    requires
        payload.is_empty(),
        events.len() >= 2,
        events[0] == StoreEventView::Connected,
        events[1] is Project,
    ensures
        answer(update_project_handler(project_id, payload), Stage::Connecting, events) == Some(
            error_response::<ProjectView>(
                STATUS_BAD_REQUEST,
                "At least one field must be provided for update."@,
            ),
        ),
        asked(update_project_handler(project_id, payload), Stage::Connecting, events) == seq![
            QueryView::FindProject { id: project_id },
        ],
{
    let handler = update_project_handler(project_id, payload);
    let rest = events.drop_first();
    assert(rest[0] == events[1]);
    assert(answer(handler, Stage::FindingProject, rest) == Some(
        error_response::<ProjectView>(
            STATUS_BAD_REQUEST,
            "At least one field must be provided for update."@,
        ),
    ));
    assert(asked(handler, Stage::FindingProject, rest) =~= Seq::empty());
    assert(asked(handler, Stage::Connecting, events) =~= seq![
        QueryView::FindProject { id: project_id },
    ]);
}

/// No project is left without a name: no statement that `create_project` or
/// `update_project` ever asks for stores a blank one.
pub proof fn lemma_stored_names_are_not_blank(
    stage: Stage,
    project_id: i32,
    creation: CreateProjectView,
    changes: UpdateProjectView,
    event: StoreEventView,
)
    ensures
        create_project_step(stage, creation, event) matches StepView::Ask {
            query: QueryView::InsertProject(row),
            ..
        } ==> !is_blank(row.name),
        update_project_step(stage, project_id, changes, event) matches StepView::Ask {
            query: QueryView::UpdateProject { changes: asked, .. },
            ..
        } ==> (asked.name matches Some(name) ==> !is_blank(name)),
{
}

/// An update that sends a blank name is refused: for a project that exists
/// the answer is 400, and the store is asked for nothing but the project.
pub proof fn lemma_blank_rename_is_refused(
    project_id: i32,
    payload: UpdateProjectView,
    events: Seq<StoreEventView>,
)
    requires
        payload.name_is_blank(),
        events.len() >= 2,
        events[0] == StoreEventView::Connected,
        events[1] is Project,
    ensures
        answer(update_project_handler(project_id, payload), Stage::Connecting, events) == Some(
            error_response::<ProjectView>(STATUS_BAD_REQUEST, "Project name is required."@),
        ),
        asked(update_project_handler(project_id, payload), Stage::Connecting, events) == seq![
            QueryView::FindProject { id: project_id },
        ],
{
    let handler = update_project_handler(project_id, payload);
    let rest = events.drop_first();
    assert(rest[0] == events[1]);
    assert(answer(handler, Stage::FindingProject, rest) == Some(
        error_response::<ProjectView>(STATUS_BAD_REQUEST, "Project name is required."@),
    ));
    assert(asked(handler, Stage::FindingProject, rest) =~= Seq::empty());
    assert(asked(handler, Stage::Connecting, events) =~= seq![
        QueryView::FindProject { id: project_id },
    ]);
}

/// Every request on projects is answered before its handler has been handed
/// four events, whatever the store says.
pub proof fn lemma_project_requests_are_answered(
    project_id: i32,
    creation: CreateProjectView,
    changes: UpdateProjectView,
    events: Seq<StoreEventView>,
)
    requires
        events.len() >= 4,
    ensures
        answer(create_project_handler(creation), Stage::Connecting, events) is Some,
        answer(get_projects_handler(), Stage::Connecting, events) is Some,
        answer(delete_project_handler(project_id), Stage::Connecting, events) is Some,
        answer(update_project_handler(project_id, changes), Stage::Connecting, events) is Some,
{
    lemma_every_exchange_ends(create_project_handler(creation), events);
    lemma_every_exchange_ends(get_projects_handler(), events);
    lemma_every_exchange_ends(delete_project_handler(project_id), events);
    lemma_every_exchange_ends(update_project_handler(project_id, changes), events);
}

} // verus!

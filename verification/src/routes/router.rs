//! The table of routes: which method and path reaches which handler.

use vstd::prelude::*;

verus! {

/// The HTTP methods that the service answers.
#[derive(Debug, Clone, Copy, PartialEq, Eq, Structural)]
pub enum Method {
    Get,
    Post,
    Put,
    Delete,
}

/// The requests that the service answers, one for each handler.
#[derive(Debug, Clone, Copy, PartialEq, Eq, Structural)]
pub enum Endpoint {
    CreateProject,
    GetProjects,
    DeleteProject,
    UpdateProject,
    CreateIssue,
    GetProjectIssues,
    UpdateIssue,
    DeleteIssue,
}

/// The path under which the projects are reached.
pub open spec fn projects_path() -> Seq<char> {
    "/api/projects"@
}

/// The path under which one project is reached.
pub open spec fn project_path() -> Seq<char> {
    "/api/projects/{project_id}"@
}

/// The path under which the issues of a project are reached.
pub open spec fn issues_path() -> Seq<char> {
    "/api/projects/{project_name}/issues"@
}

/// The path under which one issue of a project is reached.
pub open spec fn issue_path() -> Seq<char> {
    "/api/projects/{project_name}/issues/{issue_id}"@
}

impl Endpoint {
    /// The method that reaches an endpoint.
    pub open spec fn spec_method(self) -> Method {
        match self {
            Endpoint::CreateProject | Endpoint::CreateIssue => Method::Post,
            Endpoint::GetProjects | Endpoint::GetProjectIssues => Method::Get,
            Endpoint::UpdateProject | Endpoint::UpdateIssue => Method::Put,
            Endpoint::DeleteProject | Endpoint::DeleteIssue => Method::Delete,
        }
    }

    /// The path that reaches an endpoint, with a name in braces where an id
    /// stands.
    pub open spec fn spec_path(self) -> Seq<char> {
        match self {
            Endpoint::CreateProject | Endpoint::GetProjects => projects_path(),
            Endpoint::DeleteProject | Endpoint::UpdateProject => project_path(),
            Endpoint::CreateIssue | Endpoint::GetProjectIssues => issues_path(),
            Endpoint::UpdateIssue | Endpoint::DeleteIssue => issue_path(),
        }
    }

    /// The method that reaches this endpoint.
    pub fn method(self) -> (out: Method)
        ensures
            out == self.spec_method(),
    {
        match self {
            Endpoint::CreateProject | Endpoint::CreateIssue => Method::Post,
            Endpoint::GetProjects | Endpoint::GetProjectIssues => Method::Get,
            Endpoint::UpdateProject | Endpoint::UpdateIssue => Method::Put,
            Endpoint::DeleteProject | Endpoint::DeleteIssue => Method::Delete,
        }
    }

    /// The path that reaches this endpoint.
    pub fn path(self) -> (out: &'static str)
        ensures
            out@ == self.spec_path(),
    {
        match self {
            Endpoint::CreateProject | Endpoint::GetProjects => "/api/projects",
            Endpoint::DeleteProject | Endpoint::UpdateProject => "/api/projects/{project_id}",
            Endpoint::CreateIssue | Endpoint::GetProjectIssues =>
                "/api/projects/{project_name}/issues",
            Endpoint::UpdateIssue | Endpoint::DeleteIssue =>
                "/api/projects/{project_name}/issues/{issue_id}",
        }
    }
}

/// The endpoints in the order in which they are registered.
pub open spec fn all_endpoints() -> Seq<Endpoint> {
    seq![
        Endpoint::CreateProject,
        Endpoint::GetProjects,
        Endpoint::DeleteProject,
        Endpoint::UpdateProject,
        Endpoint::CreateIssue,
        Endpoint::GetProjectIssues,
        Endpoint::UpdateIssue,
        Endpoint::DeleteIssue,
    ]
}

/// Every endpoint, once, in the order in which they are registered.
pub fn endpoints() -> (out: Vec<Endpoint>)
    ensures
        out@ == all_endpoints(),
{
    let mut out: Vec<Endpoint> = Vec::new();
    out.push(Endpoint::CreateProject);
    out.push(Endpoint::GetProjects);
    out.push(Endpoint::DeleteProject);
    out.push(Endpoint::UpdateProject);
    out.push(Endpoint::CreateIssue);
    out.push(Endpoint::GetProjectIssues);
    out.push(Endpoint::UpdateIssue);
    out.push(Endpoint::DeleteIssue);
    assert(out@ =~= all_endpoints());
    out
}

/// No endpoint is left out of the table.
pub proof fn lemma_every_endpoint_is_routed(endpoint: Endpoint)
    ensures
        all_endpoints().contains(endpoint),
{
    let table = all_endpoints();
    match endpoint {
        Endpoint::CreateProject => assert(table[0] == endpoint),
        Endpoint::GetProjects => assert(table[1] == endpoint),
        Endpoint::DeleteProject => assert(table[2] == endpoint),
        Endpoint::UpdateProject => assert(table[3] == endpoint),
        Endpoint::CreateIssue => assert(table[4] == endpoint),
        Endpoint::GetProjectIssues => assert(table[5] == endpoint),
        Endpoint::UpdateIssue => assert(table[6] == endpoint),
        Endpoint::DeleteIssue => assert(table[7] == endpoint),
    }
}

/// No request reaches two handlers: two endpoints that share method and
/// path are one.
pub proof fn lemma_routes_are_distinct(a: Endpoint, b: Endpoint)
    requires
        a.spec_method() == b.spec_method(),
        a.spec_path() == b.spec_path(),
    ensures
        a == b,
{
    reveal_strlit("/api/projects");
    reveal_strlit("/api/projects/{project_id}");
    reveal_strlit("/api/projects/{project_name}/issues");
    reveal_strlit("/api/projects/{project_name}/issues/{issue_id}");
    assert(projects_path().len() == 13);
    assert(project_path().len() == 26);
    assert(issues_path().len() == 35);
    assert(issue_path().len() == 46);
}

} // verus!

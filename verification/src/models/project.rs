//! Projects: the containers that issues are filed under.

use vstd::prelude::*;
use crate::error::{AppError, AppErrorView};
use crate::store::{Query, QueryView};
use crate::text::{blank, clone_optional, is_blank};

verus! {

/// A row of the projects table.
#[derive(Debug, Clone, PartialEq, Eq)]
pub struct Project {
    pub id: i32,
    pub name: String,
    pub description: String,
}

/// Mathematical model of a project row.
pub struct ProjectView {
    pub id: i32,
    pub name: Seq<char>,
    pub description: Seq<char>,
}

impl DeepView for Project {
    type V = ProjectView;

    open spec fn deep_view(&self) -> ProjectView {
        ProjectView { id: self.id, name: self.name@, description: self.description@ }
    }
}

impl View for Project {
    type V = ProjectView;

    open spec fn view(&self) -> ProjectView {
        self.deep_view()
    }
}

/// A project that is about to be stored: the store picks its id.
#[derive(Debug, Clone, PartialEq, Eq)]
pub struct NewProject {
    pub name: String,
    pub description: String,
}

/// Mathematical model of a [`NewProject`].
pub struct NewProjectView {
    pub name: Seq<char>,
    pub description: Seq<char>,
}

impl DeepView for NewProject {
    type V = NewProjectView;

    open spec fn deep_view(&self) -> NewProjectView {
        NewProjectView { name: self.name@, description: self.description@ }
    }
}

impl View for NewProject {
    type V = NewProjectView;

    open spec fn view(&self) -> NewProjectView {
        self.deep_view()
    }
}

/// The fields of a project that an update replaces; a field left out keeps
/// its value.
#[derive(Debug, Clone, PartialEq, Eq)]
pub struct UpdateProject {
    pub name: Option<String>,
    pub description: Option<String>,
}

/// Mathematical model of an [`UpdateProject`].
pub struct UpdateProjectView {
    pub name: Option<Seq<char>>,
    pub description: Option<Seq<char>>,
}

impl UpdateProjectView {
    /// An update that names no field changes nothing.
    pub open spec fn is_empty(self) -> bool {
        self.name is None && self.description is None
    }

    /// An update must not leave a project without a name: a name that is
    /// sent must not be blank.
    pub open spec fn name_is_blank(self) -> bool {
        self.name matches Some(name) && is_blank(name)
    }
}

impl DeepView for UpdateProject {
    type V = UpdateProjectView;

    open spec fn deep_view(&self) -> UpdateProjectView {
        UpdateProjectView {
            name: self.name.deep_view(),
            description: self.description.deep_view(),
        }
    }
}

impl View for UpdateProject {
    type V = UpdateProjectView;

    open spec fn view(&self) -> UpdateProjectView {
        self.deep_view()
    }
}

impl UpdateProject {
    /// Tells whether this update names no field.
    pub fn is_empty(&self) -> (out: bool)
        ensures
            out == self@.is_empty(),
    {
        self.name.is_none() && self.description.is_none()
    }

    /// Tells whether this update sends a name that is blank.
    pub fn name_is_blank(&self) -> (out: bool)
        ensures
            out == self@.name_is_blank(),
    {
        match &self.name {
            Some(name) => blank(name.as_str()),
            None => false,
        }
    }
}

impl Project {
    /// The statement that stores a new project under the given name and
    /// description, both taken as they are.
    pub fn insert(project_name: &str, project_description: &str) -> (query: Query)
        ensures
            query@ == QueryView::InsertProject(
                NewProjectView { name: project_name@, description: project_description@ },
            ),
    {
        Query::InsertProject(
            NewProject {
                name: project_name.to_owned(),
                description: project_description.to_owned(),
            },
        )
    }

    /// The statement that stores a new project, where there may be one: a
    /// project must have a name, so a blank one is refused.
    pub fn create(project_name: &str, project_description: &str) -> (out: Result<Query, AppError>)
        ensures
            match out {
                Ok(query) => !is_blank(project_name@) && query@ == QueryView::InsertProject(
                    NewProjectView { name: project_name@, description: project_description@ },
                ),
                Err(error) => is_blank(project_name@) && error@ == AppErrorView::Validation(
                    "Project name is required."@,
                ),
            },
    {
        if blank(project_name) {
            Err(AppError::Validation("Project name is required.".to_owned()))
        } else {
            Ok(Project::insert(project_name, project_description))
        }
    }

    /// The statement that reads at most `limit` projects.
    pub fn get_first_n(limit: i64) -> (query: Query)
        ensures
            query@ == (QueryView::FirstProjects { limit }),
    {
        Query::FirstProjects { limit }
    }

    /// The statement that removes the project with the given id, and with it
    /// every issue filed under it.
    pub fn delete_by_id(project_id: i32) -> (query: Query)
        ensures
            query@ == (QueryView::DeleteProject { id: project_id }),
    {
        Query::DeleteProject { id: project_id }
    }

    /// The statement that looks a project up by its id.
    pub fn find_by_id(project_id: i32) -> (query: Query)
        ensures
            query@ == (QueryView::FindProject { id: project_id }),
    {
        Query::FindProject { id: project_id }
    }

    /// The statement that replaces, in the project with the given id, the
    /// fields that `updates` names.
    pub fn update(project_id: i32, updates: &UpdateProject) -> (query: Query)
        ensures
            query@ == (QueryView::UpdateProject { id: project_id, changes: updates@ }),
    {
        Query::UpdateProject {
            id: project_id,
            changes: UpdateProject {
                name: clone_optional(&updates.name),
                description: clone_optional(&updates.description),
            },
        }
    }
}

} // verus!

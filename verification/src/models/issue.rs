//! Issues: the tickets filed under a project.

use vstd::prelude::*;
use crate::store::{Query, QueryView};

verus! {

/// A row of the issues table.
#[derive(Debug, Clone, PartialEq, Eq)]
pub struct Issue {
    pub id: i32,
    pub project_id: i32,
    pub title: String,
    pub description: String,
    pub created_by: String,
    pub assigned_to: Option<String>,
    pub status: String,
    pub is_open: bool,
}

/// Mathematical model of an issue row.
pub struct IssueView {
    pub id: i32,
    pub project_id: i32,
    pub title: Seq<char>,
    pub description: Seq<char>,
    pub created_by: Seq<char>,
    pub assigned_to: Option<Seq<char>>,
    pub status: Seq<char>,
    pub is_open: bool,
}

impl DeepView for Issue {
    type V = IssueView;

    open spec fn deep_view(&self) -> IssueView {
        IssueView {
            id: self.id,
            project_id: self.project_id,
            title: self.title@,
            description: self.description@,
            created_by: self.created_by@,
            assigned_to: self.assigned_to.deep_view(),
            status: self.status@,
            is_open: self.is_open,
        }
    }
}

impl View for Issue {
    type V = IssueView;

    open spec fn view(&self) -> IssueView {
        self.deep_view()
    }
}

/// An issue that is about to be stored: the store picks its id.
#[derive(Debug, Clone, PartialEq, Eq)]
pub struct NewIssue {
    pub project_id: i32,
    pub title: String,
    pub description: String,
    pub created_by: String,
    pub assigned_to: Option<String>,
    pub status: String,
    pub is_open: bool,
}

/// Mathematical model of a [`NewIssue`].
pub struct NewIssueView {
    pub project_id: i32,
    pub title: Seq<char>,
    pub description: Seq<char>,
    pub created_by: Seq<char>,
    pub assigned_to: Option<Seq<char>>,
    pub status: Seq<char>,
    pub is_open: bool,
}

impl DeepView for NewIssue {
    type V = NewIssueView;

    open spec fn deep_view(&self) -> NewIssueView {
        NewIssueView {
            project_id: self.project_id,
            title: self.title@,
            description: self.description@,
            created_by: self.created_by@,
            assigned_to: self.assigned_to.deep_view(),
            status: self.status@,
            is_open: self.is_open,
        }
    }
}

impl View for NewIssue {
    type V = NewIssueView;

    open spec fn view(&self) -> NewIssueView {
        self.deep_view()
    }
}

/// The fields of an issue that an update replaces. A field left out keeps
/// its value; an assignee that is named as absent is cleared.
#[derive(Debug, Clone, PartialEq, Eq)]
pub struct IssueChanges {
    pub title: Option<String>,
    pub description: Option<String>,
    pub assigned_to: Option<Option<String>>,
    pub status: Option<String>,
    pub is_open: Option<bool>,
}

/// Mathematical model of an [`IssueChanges`].
pub struct IssueChangesView {
    pub title: Option<Seq<char>>,
    pub description: Option<Seq<char>>,
    pub assigned_to: Option<Option<Seq<char>>>,
    pub status: Option<Seq<char>>,
    pub is_open: Option<bool>,
}

impl IssueChangesView {
    /// A set of changes that names no field changes nothing. Clearing the
    /// assignee is a change.
    pub open spec fn is_empty(self) -> bool {
        &&& self.title is None
        &&& self.description is None
        &&& self.assigned_to is None
        &&& self.status is None
        &&& self.is_open is None
    }

    /// The same changes with another status, or none, in place of theirs.
    pub open spec fn with_status(self, status: Option<Seq<char>>) -> IssueChangesView {
        IssueChangesView {
            title: self.title,
            description: self.description,
            assigned_to: self.assigned_to,
            status,
            is_open: self.is_open,
        }
    }
}

impl DeepView for IssueChanges {
    type V = IssueChangesView;

    open spec fn deep_view(&self) -> IssueChangesView {
        IssueChangesView {
            title: self.title.deep_view(),
            description: self.description.deep_view(),
            assigned_to: self.assigned_to.deep_view(),
            status: self.status.deep_view(),
            is_open: self.is_open,
        }
    }
}

impl View for IssueChanges {
    type V = IssueChangesView;

    open spec fn view(&self) -> IssueChangesView {
        self.deep_view()
    }
}

/// The row that a new issue is stored as. Whatever its status, a new issue
/// is open.
pub open spec fn new_issue(
    project_id: i32,
    title: Seq<char>,
    description: Seq<char>,
    created_by: Seq<char>,
    assigned_to: Option<Seq<char>>,
    status: Seq<char>,
) -> NewIssueView {
    NewIssueView {
        project_id,
        title,
        description,
        created_by,
        assigned_to,
        status,
        is_open: true,
    }
}

impl Issue {
    /// The statement that stores a new issue under the given project. The
    /// issue is stored as open, whatever its status says.
    pub fn create(
        project_id: i32,
        title: &str,
        description: &str,
        created_by: &str,
        assigned_to: Option<&str>,
        status: &str,
    ) -> (query: Query)
        ensures
            query@ == QueryView::InsertIssue(
                new_issue(
                    project_id,
                    title@,
                    description@,
                    created_by@,
                    match assigned_to {
                        Some(name) => Some(name@),
                        None => None,
                    },
                    status@,
                ),
            ),
            query@ matches QueryView::InsertIssue(row) && row.is_open,
    {
        let assignee = match assigned_to {
            Some(name) => Some(name.to_owned()),
            None => None,
        };
        Query::InsertIssue(
            NewIssue {
                project_id,
                title: title.to_owned(),
                description: description.to_owned(),
                created_by: created_by.to_owned(),
                assigned_to: assignee,
                status: status.to_owned(),
                is_open: true,
            },
        )
    }

    /// The statement that reads every issue filed under the given project.
    pub fn get_by_project(proj_id: i32) -> (query: Query)
        ensures
            query@ == (QueryView::IssuesOfProject { project_id: proj_id }),
    {
        Query::IssuesOfProject { project_id: proj_id }
    }

    /// The statement that reads the issue with the given id.
    pub fn get_by_id(issue_id: i32) -> (query: Query)
        ensures
            query@ == (QueryView::GetIssue { id: issue_id }),
    {
        Query::GetIssue { id: issue_id }
    }

    /// The statement that replaces, in this issue, the fields that `changes`
    /// names.
    pub fn update(&self, changes: IssueChanges) -> (query: Query)
        ensures
            query@ == (QueryView::UpdateIssue { id: self.id, changes: changes@ }),
    {
        Query::UpdateIssue { id: self.id, changes }
    }

    /// The statement that removes the issue with the given id.
    pub fn delete(issue_id: i32) -> (query: Query)
        ensures
            query@ == (QueryView::DeleteIssue { id: issue_id }),
    {
        Query::DeleteIssue { id: issue_id }
    }
}

} // verus!

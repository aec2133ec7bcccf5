//! The rows of the two tables, and the statements that read and write them.

pub mod issue;
pub mod project;

pub use issue::{Issue, IssueChanges, NewIssue};
pub use project::{NewProject, Project, UpdateProject};

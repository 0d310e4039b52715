//! The records that the local board stores and the requests that change them.
use vstd::prelude::*;
use crate::sql::{RealBits, Statement};

verus! {

/// A project of an organization.
#[derive(Debug)]
pub struct LocalProject {
    pub id: String,
    pub organization_id: String,
    pub name: String,
    pub color: String,
    pub sort_order: i32,
    pub created_at: String,
    pub updated_at: String,
}

/// A request to create a project.
#[derive(Debug)]
pub struct CreateProject {
    pub organization_id: String,
    pub name: String,
    pub color: Option<String>,
}

/// A request to change a project; an absent field is left as it is.
#[derive(Debug)]
pub struct UpdateProject {
    pub name: Option<String>,
    pub color: Option<String>,
    pub sort_order: Option<i32>,
}

/// A request to create an issue. Its sort order is a floating-point value,
/// carried by its bits.
#[derive(Debug)]
pub struct CreateIssue {
    pub project_id: String,
    pub status_id: Option<String>,
    pub title: String,
    pub description: Option<String>,
    pub priority: Option<String>,
    pub sort_order: Option<RealBits>,
}

/// A request to change an issue; an absent field is left as it is.
#[derive(Debug)]
pub struct UpdateIssue {
    pub status_id: Option<String>,
    pub title: Option<String>,
    pub description: Option<String>,
    pub priority: Option<String>,
    pub sort_order: Option<RealBits>,
    pub completed_at: Option<String>,
}

/// A workflow status of a project.
#[derive(Debug)]
pub struct LocalStatus {
    pub id: String,
    pub project_id: String,
    pub name: String,
    pub color: String,
    pub sort_order: i32,
    pub hidden: bool,
    pub created_at: String,
}

/// A status as the store returns it, its hidden flag an integer column.
#[derive(Debug)]
pub struct StatusRow {
    pub id: String,
    pub project_id: String,
    pub name: String,
    pub color: String,
    pub sort_order: i32,
    pub hidden: i32,
    pub created_at: String,
}

/// A request to create a status.
#[derive(Debug)]
pub struct CreateStatus {
    pub project_id: String,
    pub name: String,
    pub color: Option<String>,
    pub sort_order: Option<i32>,
}

/// A request to change a status; an absent field is left as it is.
#[derive(Debug)]
pub struct UpdateStatus {
    pub name: Option<String>,
    pub color: Option<String>,
    pub sort_order: Option<i32>,
    pub hidden: Option<bool>,
}

/// A tag of a project.
#[derive(Debug)]
pub struct LocalTag {
    pub id: String,
    pub project_id: String,
    pub name: String,
    pub color: String,
}

/// A request to create a tag: the text fields of the request body, each
/// absent where the body has no text under its name.
#[derive(Debug)]
pub struct CreateTag {
    pub project_id: Option<String>,
    pub name: Option<String>,
    pub color: Option<String>,
}

/// A tag attached to an issue.
#[derive(Debug)]
pub struct LocalIssueTag {
    pub id: String,
    pub issue_id: String,
    pub tag_id: String,
}

/// A request to attach a tag to an issue: the text fields of the request
/// body, each absent where the body has no text under its name.
#[derive(Debug)]
pub struct CreateIssueTag {
    pub issue_id: Option<String>,
    pub tag_id: Option<String>,
}

/// The changes of one entry of a bulk issue update.
#[derive(Debug)]
pub struct IssueMoveChanges {
    pub status_id: Option<String>,
    pub sort_order: Option<RealBits>,
}

/// One entry of a bulk issue update: the issue's id, where the entry has one
/// as text, and its changes, where the entry has any.
#[derive(Debug)]
pub struct IssueMove {
    pub id: Option<String>,
    pub changes: Option<IssueMoveChanges>,
}

/// A bulk issue update: its list of entries, where the body has one.
#[derive(Debug)]
pub struct BulkIssueUpdate {
    pub updates: Option<Vec<IssueMove>>,
}

/// What creating a record takes: the record's fresh id, the statement that
/// inserts it and the statement that reads it back.
pub struct Creation {
    pub id: String,
    pub insert: Statement,
    pub fetch: Statement,
}

} // verus!

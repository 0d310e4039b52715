use vstd::prelude::*;

verus! {

pub const COUNT_PROJECTS: &'static str = "SELECT COUNT(*) FROM local_projects";
pub const COUNT_PROJECTS_WITH_ID: &'static str = "SELECT COUNT(*) FROM local_projects WHERE id = ?1";
pub const PROJECTS_IN_ORGANIZATION: &'static str = "SELECT id, organization_id, name, color, sort_order, created_at, updated_at FROM local_projects WHERE organization_id = ?1 ORDER BY sort_order";
pub const PROJECT_BY_ID: &'static str = "SELECT id, organization_id, name, color, sort_order, created_at, updated_at FROM local_projects WHERE id = ?1";
pub const SEED_PROJECT: &'static str = "INSERT OR IGNORE INTO local_projects (id, organization_id, name, color, sort_order, created_at, updated_at) VALUES (?1, ?2, ?3, ?4, 0, ?5, ?5)";
pub const INSERT_PROJECT: &'static str = "INSERT INTO local_projects (id, organization_id, name, color, sort_order, created_at, updated_at) VALUES (?1, ?2, ?3, ?4, (SELECT COALESCE(MAX(sort_order), -1) + 1 FROM local_projects WHERE organization_id = ?2), ?5, ?5)";
pub const UPDATE_PROJECT: &'static str = "UPDATE local_projects SET name = COALESCE(?1, name), color = COALESCE(?2, color), sort_order = COALESCE(?3, sort_order), updated_at = ?4 WHERE id = ?5";
pub const DELETE_PROJECT_ISSUE_TAGS: &'static str = "DELETE FROM local_issue_tags WHERE issue_id IN (SELECT id FROM local_issues WHERE project_id = ?1)";
pub const DELETE_PROJECT_ISSUES: &'static str = "DELETE FROM local_issues WHERE project_id = ?1";
pub const DELETE_PROJECT_TAGS: &'static str = "DELETE FROM local_tags WHERE project_id = ?1";
pub const DELETE_PROJECT_STATUSES: &'static str = "DELETE FROM local_statuses WHERE project_id = ?1";
pub const DELETE_PROJECT: &'static str = "DELETE FROM local_projects WHERE id = ?1";
pub const ISSUES_OF_PROJECT: &'static str = "SELECT id, project_id, issue_number, simple_id, status_id, title, description, priority, sort_order, parent_issue_id, parent_issue_sort_order, start_date, target_date, completed_at, extension_metadata, creator_user_id, created_at, updated_at FROM local_issues WHERE project_id = ?1 ORDER BY sort_order";
pub const NEXT_ISSUE_NUMBER: &'static str = "SELECT COALESCE(MAX(issue_number), 0) + 1 FROM local_issues WHERE project_id = ?1";
pub const INSERT_ISSUE: &'static str = "INSERT INTO local_issues (id, project_id, issue_number, simple_id, status_id, title, description, priority, sort_order, parent_issue_id, parent_issue_sort_order, start_date, target_date, completed_at, extension_metadata, creator_user_id, created_at, updated_at) VALUES (?1, ?2, ?3, ?4, ?5, ?6, ?7, ?8, ?9, ?10, ?11, ?12, ?13, ?14, ?15, ?16, ?17, ?17)";
pub const ISSUE_BY_ID: &'static str = "SELECT id, project_id, issue_number, simple_id, status_id, title, description, priority, sort_order, parent_issue_id, parent_issue_sort_order, start_date, target_date, completed_at, extension_metadata, creator_user_id, created_at, updated_at FROM local_issues WHERE id = ?1";
pub const UPDATE_ISSUE: &'static str = "UPDATE local_issues SET status_id = COALESCE(?1, status_id), title = COALESCE(?2, title), description = COALESCE(?3, description), priority = COALESCE(?4, priority), sort_order = COALESCE(?5, sort_order), completed_at = COALESCE(?6, completed_at), updated_at = ?7 WHERE id = ?8";
pub const MOVE_ISSUE: &'static str = "UPDATE local_issues SET status_id = COALESCE(?1, status_id), sort_order = COALESCE(?2, sort_order), updated_at = ?3 WHERE id = ?4";
pub const DELETE_ISSUE_TAGS_OF_ISSUE: &'static str = "DELETE FROM local_issue_tags WHERE issue_id = ?1";
pub const DELETE_ISSUE: &'static str = "DELETE FROM local_issues WHERE id = ?1";
pub const COUNT_STATUSES: &'static str = "SELECT COUNT(*) FROM local_statuses WHERE project_id = ?1";
pub const INSERT_DEFAULT_STATUS: &'static str = "INSERT INTO local_statuses (id, project_id, name, color, sort_order, hidden, created_at) VALUES (?1, ?2, ?3, ?4, ?5, 0, datetime('now'))";
pub const INSERT_STATUS: &'static str = "INSERT INTO local_statuses (id, project_id, name, color, sort_order, hidden, created_at) VALUES (?1, ?2, ?3, ?4, ?5, 0, ?6)";
pub const STATUSES_OF_PROJECT: &'static str = "SELECT id, project_id, name, color, sort_order, CAST(hidden AS INTEGER) as hidden, created_at FROM local_statuses WHERE project_id = ?1 ORDER BY sort_order";
pub const STATUS_BY_ID: &'static str = "SELECT id, project_id, name, color, sort_order, CAST(hidden AS INTEGER) as hidden, created_at FROM local_statuses WHERE id = ?1";
pub const UPDATE_STATUS: &'static str = "UPDATE local_statuses SET name = COALESCE(?1, name), color = COALESCE(?2, color), sort_order = COALESCE(?3, sort_order), hidden = COALESCE(?4, hidden) WHERE id = ?5";
pub const DELETE_STATUS: &'static str = "DELETE FROM local_statuses WHERE id = ?1";
pub const COUNT_TAGS: &'static str = "SELECT COUNT(*) FROM local_tags WHERE project_id = ?1";
pub const INSERT_TAG: &'static str = "INSERT INTO local_tags (id, project_id, name, color) VALUES (?1, ?2, ?3, ?4)";
pub const TAGS_OF_PROJECT: &'static str = "SELECT id, project_id, name, color FROM local_tags WHERE project_id = ?1";
pub const TAG_BY_ID: &'static str = "SELECT id, project_id, name, color FROM local_tags WHERE id = ?1";
pub const ISSUE_TAGS_OF_ISSUE: &'static str = "SELECT id, issue_id, tag_id FROM local_issue_tags WHERE issue_id = ?1";
pub const ISSUE_TAGS_OF_PROJECT: &'static str = "SELECT it.id, it.issue_id, it.tag_id FROM local_issue_tags it JOIN local_issues i ON i.id = it.issue_id WHERE i.project_id = ?1";
pub const INSERT_ISSUE_TAG: &'static str = "INSERT INTO local_issue_tags (id, issue_id, tag_id) VALUES (?1, ?2, ?3)";
pub const ISSUE_TAG_BY_ID: &'static str = "SELECT id, issue_id, tag_id FROM local_issue_tags WHERE id = ?1";
pub const DELETE_ISSUE_TAG: &'static str = "DELETE FROM local_issue_tags WHERE id = ?1";

/// The statements that the local store runs.
#[derive(Clone, Copy, Debug, PartialEq, Eq)]
pub enum Sql {
    CountProjects,
    CountProjectsWithId,
    ProjectsInOrganization,
    ProjectById,
    SeedProject,
    InsertProject,
    UpdateProject,
    DeleteProjectIssueTags,
    DeleteProjectIssues,
    DeleteProjectTags,
    DeleteProjectStatuses,
    DeleteProject,
    IssuesOfProject,
    NextIssueNumber,
    InsertIssue,
    IssueById,
    UpdateIssue,
    MoveIssue,
    DeleteIssueTagsOfIssue,
    DeleteIssue,
    CountStatuses,
    InsertDefaultStatus,
    InsertStatus,
    StatusesOfProject,
    StatusById,
    UpdateStatus,
    DeleteStatus,
    CountTags,
    InsertTag,
    TagsOfProject,
    TagById,
    IssueTagsOfIssue,
    IssueTagsOfProject,
    InsertIssueTag,
    IssueTagById,
    DeleteIssueTag,
}

/// The SQL text of a statement.
pub open spec fn sql_text(s: Sql) -> Seq<char> {
    match s {
        Sql::CountProjects => COUNT_PROJECTS@,
        Sql::CountProjectsWithId => COUNT_PROJECTS_WITH_ID@,
        Sql::ProjectsInOrganization => PROJECTS_IN_ORGANIZATION@,
        Sql::ProjectById => PROJECT_BY_ID@,
        Sql::SeedProject => SEED_PROJECT@,
        Sql::InsertProject => INSERT_PROJECT@,
        Sql::UpdateProject => UPDATE_PROJECT@,
        Sql::DeleteProjectIssueTags => DELETE_PROJECT_ISSUE_TAGS@,
        Sql::DeleteProjectIssues => DELETE_PROJECT_ISSUES@,
        Sql::DeleteProjectTags => DELETE_PROJECT_TAGS@,
        Sql::DeleteProjectStatuses => DELETE_PROJECT_STATUSES@,
        Sql::DeleteProject => DELETE_PROJECT@,
        Sql::IssuesOfProject => ISSUES_OF_PROJECT@,
        Sql::NextIssueNumber => NEXT_ISSUE_NUMBER@,
        Sql::InsertIssue => INSERT_ISSUE@,
        Sql::IssueById => ISSUE_BY_ID@,
        Sql::UpdateIssue => UPDATE_ISSUE@,
        Sql::MoveIssue => MOVE_ISSUE@,
        Sql::DeleteIssueTagsOfIssue => DELETE_ISSUE_TAGS_OF_ISSUE@,
        Sql::DeleteIssue => DELETE_ISSUE@,
        Sql::CountStatuses => COUNT_STATUSES@,
        Sql::InsertDefaultStatus => INSERT_DEFAULT_STATUS@,
        Sql::InsertStatus => INSERT_STATUS@,
        Sql::StatusesOfProject => STATUSES_OF_PROJECT@,
        Sql::StatusById => STATUS_BY_ID@,
        Sql::UpdateStatus => UPDATE_STATUS@,
        Sql::DeleteStatus => DELETE_STATUS@,
        Sql::CountTags => COUNT_TAGS@,
        Sql::InsertTag => INSERT_TAG@,
        Sql::TagsOfProject => TAGS_OF_PROJECT@,
        Sql::TagById => TAG_BY_ID@,
        Sql::IssueTagsOfIssue => ISSUE_TAGS_OF_ISSUE@,
        Sql::IssueTagsOfProject => ISSUE_TAGS_OF_PROJECT@,
        Sql::InsertIssueTag => INSERT_ISSUE_TAG@,
        Sql::IssueTagById => ISSUE_TAG_BY_ID@,
        Sql::DeleteIssueTag => DELETE_ISSUE_TAG@,
    }
}

/// How many parameters a statement binds: the number of distinct `?N`
/// placeholders in its text.
pub open spec fn arity(s: Sql) -> nat {
    match s {
        Sql::CountProjects => 0,
        Sql::SeedProject => 5,
        Sql::InsertProject => 5,
        Sql::UpdateProject => 5,
        Sql::InsertIssue => 17,
        Sql::UpdateIssue => 8,
        Sql::MoveIssue => 4,
        Sql::InsertDefaultStatus => 5,
        Sql::InsertStatus => 6,
        Sql::UpdateStatus => 5,
        Sql::InsertTag => 4,
        Sql::InsertIssueTag => 3,
        _ => 1,
    }
}

impl Sql {
    /// The statement's SQL text.
    pub fn text(&self) -> (r: &'static str)
        ensures
            r@ == sql_text(*self),
    {
        match self {
            Sql::CountProjects => COUNT_PROJECTS,
            Sql::CountProjectsWithId => COUNT_PROJECTS_WITH_ID,
            Sql::ProjectsInOrganization => PROJECTS_IN_ORGANIZATION,
            Sql::ProjectById => PROJECT_BY_ID,
            Sql::SeedProject => SEED_PROJECT,
            Sql::InsertProject => INSERT_PROJECT,
            Sql::UpdateProject => UPDATE_PROJECT,
            Sql::DeleteProjectIssueTags => DELETE_PROJECT_ISSUE_TAGS,
            Sql::DeleteProjectIssues => DELETE_PROJECT_ISSUES,
            Sql::DeleteProjectTags => DELETE_PROJECT_TAGS,
            Sql::DeleteProjectStatuses => DELETE_PROJECT_STATUSES,
            Sql::DeleteProject => DELETE_PROJECT,
            Sql::IssuesOfProject => ISSUES_OF_PROJECT,
            Sql::NextIssueNumber => NEXT_ISSUE_NUMBER,
            Sql::InsertIssue => INSERT_ISSUE,
            Sql::IssueById => ISSUE_BY_ID,
            Sql::UpdateIssue => UPDATE_ISSUE,
            Sql::MoveIssue => MOVE_ISSUE,
            Sql::DeleteIssueTagsOfIssue => DELETE_ISSUE_TAGS_OF_ISSUE,
            Sql::DeleteIssue => DELETE_ISSUE,
            Sql::CountStatuses => COUNT_STATUSES,
            Sql::InsertDefaultStatus => INSERT_DEFAULT_STATUS,
            Sql::InsertStatus => INSERT_STATUS,
            Sql::StatusesOfProject => STATUSES_OF_PROJECT,
            Sql::StatusById => STATUS_BY_ID,
            Sql::UpdateStatus => UPDATE_STATUS,
            Sql::DeleteStatus => DELETE_STATUS,
            Sql::CountTags => COUNT_TAGS,
            Sql::InsertTag => INSERT_TAG,
            Sql::TagsOfProject => TAGS_OF_PROJECT,
            Sql::TagById => TAG_BY_ID,
            Sql::IssueTagsOfIssue => ISSUE_TAGS_OF_ISSUE,
            Sql::IssueTagsOfProject => ISSUE_TAGS_OF_PROJECT,
            Sql::InsertIssueTag => INSERT_ISSUE_TAG,
            Sql::IssueTagById => ISSUE_TAG_BY_ID,
            Sql::DeleteIssueTag => DELETE_ISSUE_TAG,
        }
    }
}

/// The bit pattern of a floating-point value (`f64::to_bits`). The library
/// carries such values from a request to a statement without reading them.
#[derive(Clone, Copy, Debug, PartialEq, Eq)]
pub struct RealBits {
    pub bits: u64,
}

/// A value bound to a statement parameter.
#[derive(Debug, PartialEq)]
pub enum SqlValue {
    Text(String),
    Integer(i64),
    /// A floating-point value, given by its bits.
    Real(RealBits),
    /// An integer bound as a floating-point value (`n as f64`).
    IntegerAsReal(i64),
    Null,
}

/// What a bound value is, with text taken as characters.
pub enum SqlValueView {
    Text(Seq<char>),
    Integer(int),
    Real(u64),
    IntegerAsReal(int),
    Null,
}

impl View for SqlValue {
    type V = SqlValueView;

    open spec fn view(&self) -> SqlValueView {
        match self {
            SqlValue::Text(s) => SqlValueView::Text(s@),
            SqlValue::Integer(i) => SqlValueView::Integer(*i as int),
            SqlValue::Real(r) => SqlValueView::Real(r.bits),
            SqlValue::IntegerAsReal(i) => SqlValueView::IntegerAsReal(*i as int),
            SqlValue::Null => SqlValueView::Null,
        }
    }
}

/// An optional text: `NULL` when absent.
pub open spec fn opt_text(o: Option<String>) -> SqlValueView {
    match o {
        Some(s) => SqlValueView::Text(s@),
        None => SqlValueView::Null,
    }
}

/// An optional integer: `NULL` when absent.
pub open spec fn opt_integer(o: Option<i32>) -> SqlValueView {
    match o {
        Some(i) => SqlValueView::Integer(i as int),
        None => SqlValueView::Null,
    }
}

/// An optional floating-point value: `NULL` when absent.
pub open spec fn opt_real(o: Option<RealBits>) -> SqlValueView {
    match o {
        Some(r) => SqlValueView::Real(r.bits),
        None => SqlValueView::Null,
    }
}

/// A statement and the values bound to its parameters `?1`, `?2`, ... in order.
pub struct StatementView {
    pub sql: Sql,
    pub params: Seq<SqlValueView>,
}

pub open spec fn statement(sql: Sql, params: Seq<SqlValueView>) -> StatementView {
    StatementView { sql, params }
}

/// A statement with its bound values. Every statement binds exactly as many
/// values as its text has placeholders.
#[derive(Debug)]
pub struct Statement {
    sql: Sql,
    params: Vec<SqlValue>,
}

impl View for Statement {
    type V = StatementView;

    closed spec fn view(&self) -> StatementView {
        StatementView { sql: self.sql, params: self.params@.map_values(|v: SqlValue| v@) }
    }
}

impl Statement {
    #[verifier::type_invariant]
    spec fn binds_every_placeholder(self) -> bool {
        self.params.len() == arity(self.sql)
    }

    pub(crate) fn new(sql: Sql, params: Vec<SqlValue>) -> (r: Statement)
        requires
            params.len() == arity(sql),
        ensures
            r@ == statement(sql, params@.map_values(|v: SqlValue| v@)),
    {
        Statement { sql, params }
    }

    /// Which statement this is.
    pub fn sql(&self) -> (r: Sql)
        ensures
            r == self@.sql,
    {
        self.sql
    }

    /// The bound values, in placeholder order.
    pub fn params(&self) -> (r: &Vec<SqlValue>)
        ensures
            r@.map_values(|v: SqlValue| v@) == self@.params,
            r.len() == arity(self@.sql),
    {
        proof { use_type_invariant(self); }
        &self.params
    }
}

/// Binds a text.
pub fn text_value(s: &String) -> (r: SqlValue)
    ensures
        r@ == SqlValueView::Text(s@),
{
    SqlValue::Text(s.clone())
}

/// Binds a text given as a string slice.
pub fn str_value(s: &str) -> (r: SqlValue)
    ensures
        r@ == SqlValueView::Text(s@),
{
    SqlValue::Text(s.to_string())
}

/// Binds an optional text.
pub fn opt_text_value(o: &Option<String>) -> (r: SqlValue)
    ensures
        r@ == opt_text(*o),
{
    match o {
        Some(s) => SqlValue::Text(s.clone()),
        None => SqlValue::Null,
    }
}

/// Binds an optional integer.
pub fn opt_integer_value(o: Option<i32>) -> (r: SqlValue)
    ensures
        r@ == opt_integer(o),
{
    match o {
        Some(i) => SqlValue::Integer(i as i64),
        None => SqlValue::Null,
    }
}

/// Binds an optional floating-point value.
pub fn opt_real_value(o: Option<RealBits>) -> (r: SqlValue)
    ensures
        r@ == opt_real(o),
{
    match o {
        Some(b) => SqlValue::Real(b),
        None => SqlValue::Null,
    }
}

/// A statement with the one parameter `?1` bound to `key`.
pub fn keyed(sql: Sql, key: &String) -> (r: Statement)
    requires
        arity(sql) == 1,
    ensures
        r@ == statement(sql, seq![SqlValueView::Text(key@)]),
{
    let params = vec![text_value(key)];
    proof {
        assert(params@.map_values(|v: SqlValue| v@) =~= seq![SqlValueView::Text(key@)]);
    }
    Statement::new(sql, params)
}

} // verus!

//! Projects: seeding the local development project, and creating, listing,
//! changing and deleting projects.
use vstd::prelude::*;
use crate::defaults::{DEFAULT_COLOR, SEED_ORGANIZATION_ID, SEED_PROJECT_COLOR, SEED_PROJECT_NAME};
use crate::ids::{ends_with, is_uuid_v4_text, new_id, now_timestamp};
use crate::model::{CreateProject, Creation, UpdateProject};
use crate::sql::{
    keyed, opt_integer, opt_integer_value, opt_text, opt_text_value, statement, str_value,
    text_value, Sql, SqlValue, SqlValueView, Statement, StatementView,
};
use crate::tags::text_or;

verus! {

/// The insert of the seeded project under `project_id`, created at `now`.
pub open spec fn seed_project_insert_spec(project_id: Seq<char>, now: Seq<char>) -> StatementView {
    statement(
        Sql::SeedProject,
        seq![
            SqlValueView::Text(project_id),
            SqlValueView::Text(SEED_ORGANIZATION_ID@),
            SqlValueView::Text(SEED_PROJECT_NAME@),
            SqlValueView::Text(SEED_PROJECT_COLOR@),
            SqlValueView::Text(now),
        ],
    )
}

/// The insert of a new project: the request's colour or the default colour,
/// created and updated at `now`. The store places it after the other
/// projects of its organization.
pub open spec fn project_insert(req: CreateProject, id: Seq<char>, now: Seq<char>) -> StatementView {
    statement(
        Sql::InsertProject,
        seq![
            SqlValueView::Text(id),
            SqlValueView::Text(req.organization_id@),
            SqlValueView::Text(req.name@),
            SqlValueView::Text(text_or(req.color, DEFAULT_COLOR@)),
            SqlValueView::Text(now),
        ],
    )
}

/// The change of a project: present fields are written, absent ones bound as
/// `NULL` and so left as they are; the update time is always written.
pub open spec fn project_update(id: Seq<char>, req: UpdateProject, now: Seq<char>) -> StatementView {
    statement(
        Sql::UpdateProject,
        seq![
            opt_text(req.name),
            opt_text(req.color),
            opt_integer(req.sort_order),
            SqlValueView::Text(now),
            SqlValueView::Text(id),
        ],
    )
}

/// Deleting a project: first the tag attachments of its issues, then its
/// issues, tags and statuses, and last the project.
pub open spec fn project_deletion(id: Seq<char>) -> Seq<StatementView> {
    seq![
        statement(Sql::DeleteProjectIssueTags, seq![SqlValueView::Text(id)]),
        statement(Sql::DeleteProjectIssues, seq![SqlValueView::Text(id)]),
        statement(Sql::DeleteProjectTags, seq![SqlValueView::Text(id)]),
        statement(Sql::DeleteProjectStatuses, seq![SqlValueView::Text(id)]),
        statement(Sql::DeleteProject, seq![SqlValueView::Text(id)]),
    ]
}

/// The organization whose projects are listed: the query's
/// `organization_id` text, or empty where it has none.
pub fn organization_filter(organization_id: Option<String>) -> (r: String)
    ensures
        r@ == text_or(organization_id, Seq::empty()),
{
    match organization_id {
        Some(s) => s,
        None => {
            let r = String::new();
            r
        },
    }
}

/// The statement that counts all projects.
pub fn count_projects() -> (r: Statement)
    ensures
        r@ == statement(Sql::CountProjects, Seq::empty()),
{
    let params: Vec<SqlValue> = Vec::new();
    assert(params@.map_values(|v: SqlValue| v@) =~= Seq::<SqlValueView>::empty());
    Statement::new(Sql::CountProjects, params)
}

/// The statement that counts the projects with a given id.
pub fn count_projects_with_id(id: &String) -> (r: Statement)
    ensures
        r@ == statement(Sql::CountProjectsWithId, seq![SqlValueView::Text(id@)]),
{
    keyed(Sql::CountProjectsWithId, id)
}

/// Whether a project is to be seeded: exactly when none was counted.
pub fn needs_seed(count: i64) -> (r: bool)
    ensures
        r == (count == 0),
{
    count == 0
}

/// The statement that lists an organization's projects by sort order.
pub fn projects_in_organization(organization_id: &String) -> (r: Statement)
    ensures
        r@ == statement(Sql::ProjectsInOrganization, seq![SqlValueView::Text(organization_id@)]),
{
    keyed(Sql::ProjectsInOrganization, organization_id)
}

/// The statement that reads a project.
pub fn project_by_id(id: &String) -> (r: Statement)
    ensures
        r@ == statement(Sql::ProjectById, seq![SqlValueView::Text(id@)]),
{
    keyed(Sql::ProjectById, id)
}

/// The insert of the seeded project under `project_id` at the given time;
/// the store ignores it where the project exists.
pub fn seed_project_insert_at(project_id: &String, now: &String) -> (r: Statement)
    ensures
        r@ == seed_project_insert_spec(project_id@, now@),
{
    let params = vec![
        text_value(project_id),
        str_value(SEED_ORGANIZATION_ID),
        str_value(SEED_PROJECT_NAME),
        str_value(SEED_PROJECT_COLOR),
        text_value(now),
    ];
    assert(params@.map_values(|v: SqlValue| v@) =~= seed_project_insert_spec(project_id@, now@).params);
    Statement::new(Sql::SeedProject, params)
}

/// The insert of the seeded project under `project_id`, at the current time.
pub fn seed_project_insert(project_id: &String) -> (r: Statement)
    ensures
        exists|now: Seq<char>| ends_with(now, "+00:00"@) && r@ == seed_project_insert_spec(project_id@, now),
{
    let now = now_timestamp();
    seed_project_insert_at(project_id, &now)
}

/// Creating a project under the given id at the given time.
pub fn create_project_with(req: &CreateProject, id: String, now: &String) -> (r: Creation)
    ensures
        r.id@ == id@,
        r.insert@ == project_insert(*req, id@, now@),
        r.fetch@ == statement(Sql::ProjectById, seq![SqlValueView::Text(id@)]),
{
    let color = match &req.color {
        Some(c) => text_value(c),
        None => str_value(DEFAULT_COLOR),
    };
    let params = vec![
        text_value(&id),
        text_value(&req.organization_id),
        text_value(&req.name),
        color,
        text_value(now),
    ];
    assert(params@.map_values(|v: SqlValue| v@) =~= project_insert(*req, id@, now@).params);
    let insert = Statement::new(Sql::InsertProject, params);
    let fetch = project_by_id(&id);
    Creation { id, insert, fetch }
}

/// Creating a project: a fresh id, the current time, and
/// [`create_project_with`] on them.
pub fn create_project(req: &CreateProject) -> (r: Creation)
    ensures
        is_uuid_v4_text(r.id@),
        exists|now: Seq<char>| ends_with(now, "+00:00"@) && r.insert@ == project_insert(*req, r.id@, now),
        r.fetch@ == statement(Sql::ProjectById, seq![SqlValueView::Text(r.id@)]),
{
    let id = new_id();
    let now = now_timestamp();
    create_project_with(req, id, &now)
}

/// The statement that changes a project at the given time.
pub fn update_project_at(id: &String, req: &UpdateProject, now: &String) -> (r: Statement)
    ensures
        r@ == project_update(id@, *req, now@),
{
    let params = vec![
        opt_text_value(&req.name),
        opt_text_value(&req.color),
        opt_integer_value(req.sort_order),
        text_value(now),
        text_value(id),
    ];
    assert(params@.map_values(|v: SqlValue| v@) =~= project_update(id@, *req, now@).params);
    Statement::new(Sql::UpdateProject, params)
}

/// The statement that changes a project, at the current time.
pub fn update_project(id: &String, req: &UpdateProject) -> (r: Statement)
    ensures
        exists|now: Seq<char>| ends_with(now, "+00:00"@) && r@ == project_update(id@, *req, now),
{
    let now = now_timestamp();
    update_project_at(id, req, &now)
}

/// The statements that delete a project and everything in it.
pub fn delete_project(id: &String) -> (r: Vec<Statement>)
    ensures
        r@.map_values(|s: Statement| s@) == project_deletion(id@),
{
    let r = vec![
        keyed(Sql::DeleteProjectIssueTags, id),
        keyed(Sql::DeleteProjectIssues, id),
        keyed(Sql::DeleteProjectTags, id),
        keyed(Sql::DeleteProjectStatuses, id),
        keyed(Sql::DeleteProject, id),
    ];
    assert(r@.map_values(|s: Statement| s@) =~= project_deletion(id@));
    r
}

} // verus!

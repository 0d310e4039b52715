//! The routes of the local board, each as the list of steps it takes
//! against the store (see [`crate::steps`]).
use vstd::prelude::*;
use crate::ids::{ends_with, is_uuid_v4_text};
use crate::issues::{bulk_update, issue_deletion, issue_insert, issue_update};
use crate::model::{
    BulkIssueUpdate, CreateIssue, CreateIssueTag, CreateProject, CreateStatus, CreateTag,
    UpdateIssue, UpdateProject, UpdateStatus,
};
use crate::projects::{organization_filter, project_deletion, project_insert, project_update};
use crate::sql::{statement, Sql, SqlValueView, StatementView};
use crate::statuses::{status_insert, status_update};
use crate::steps::{runs, steps_view, Decision, DecisionView, Step, StepView};
use crate::tags::{issue_tag_insert, tag_insert, text_or};
use crate::{issues, projects, statuses, tags};

verus! {

/// A statement keyed by one text.
pub open spec fn keyed_view(sql: Sql, key: Seq<char>) -> StatementView {
    statement(sql, seq![SqlValueView::Text(key)])
}

/// Each statement as a run step.
pub open spec fn run_all(stmts: Seq<StatementView>) -> Seq<StepView> {
    stmts.map_values(|s: StatementView| StepView::Run(s))
}

/// Listing an organization's projects: seed the local development project
/// where there are no projects at all, then answer with the organization's
/// projects by sort order.
pub open spec fn list_projects_steps(organization_id: Seq<char>) -> Seq<StepView> {
    seq![
        StepView::Decide(DecisionView::SeedIfNoProjects),
        StepView::AnswerAll(keyed_view(Sql::ProjectsInOrganization, organization_id)),
    ]
}

/// Creating a project under `id` at `now`: insert it, make sure of its
/// statuses and of its tags, and answer with it.
pub open spec fn create_project_steps(req: CreateProject, id: Seq<char>, now: Seq<char>) -> Seq<StepView> {
    seq![
        StepView::Run(project_insert(req, id, now)),
        StepView::Decide(DecisionView::EnsureStatuses(id)),
        StepView::Decide(DecisionView::EnsureTags(id)),
        StepView::AnswerOne(keyed_view(Sql::ProjectById, id)),
    ]
}

/// Listing a project's statuses: seed the project where it is missing, else
/// make sure of its statuses, then answer with its statuses by sort order.
pub open spec fn list_statuses_steps(project_id: Seq<char>) -> Seq<StepView> {
    seq![
        StepView::Decide(DecisionView::SeedOrEnsureStatuses(project_id)),
        StepView::AnswerAll(keyed_view(Sql::StatusesOfProject, project_id)),
    ]
}

/// Creating a status under `id` at `now`: seed its project where it is
/// missing, insert the status, and answer with it.
pub open spec fn create_status_steps(req: CreateStatus, id: Seq<char>, now: Seq<char>) -> Seq<StepView> {
    seq![
        StepView::Decide(DecisionView::SeedIfMissing(req.project_id@)),
        StepView::Run(status_insert(req, id, now)),
        StepView::AnswerOne(keyed_view(Sql::StatusById, id)),
    ]
}

/// Listing a project's tags: make sure of its tags, then answer with them.
pub open spec fn list_tags_steps(project_id: Seq<char>) -> Seq<StepView> {
    seq![
        StepView::Decide(DecisionView::EnsureTags(project_id)),
        StepView::AnswerAll(keyed_view(Sql::TagsOfProject, project_id)),
    ]
}

/// `GET /local/projects`, given the query's `organization_id` text.
pub fn list_projects(organization_id: Option<String>) -> (r: Vec<Step>)
    ensures
        steps_view(r@) == list_projects_steps(text_or(organization_id, Seq::empty())),
{
    let org = organization_filter(organization_id);
    let r = vec![Step::Decide(Decision::SeedIfNoProjects), Step::AnswerAll(projects::projects_in_organization(&org))];
    assert(steps_view(r@) =~= list_projects_steps(org@));
    r
}

/// `POST /local/projects`.
pub fn create_project(req: &CreateProject) -> (r: Vec<Step>)
    ensures
        exists|id: Seq<char>, now: Seq<char>|
            is_uuid_v4_text(id) && ends_with(now, "+00:00"@) && steps_view(r@) == create_project_steps(*req, id, now),
{
    let c = projects::create_project(req);
    let ghost id = c.id@;
    let ghost insert = c.insert@;
    let ghost now = choose|now: Seq<char>| ends_with(now, "+00:00"@) && insert == project_insert(*req, id, now);
    let r = vec![
        Step::Run(c.insert),
        Step::Decide(Decision::EnsureStatuses(c.id.clone())),
        Step::Decide(Decision::EnsureTags(c.id.clone())),
        Step::AnswerOne(c.fetch),
    ];
    assert(steps_view(r@) =~= create_project_steps(*req, id, now));
    r
}

/// `GET /local/projects/{id}`.
pub fn get_project(id: &String) -> (r: Vec<Step>)
    ensures
        steps_view(r@) == seq![StepView::AnswerOne(keyed_view(Sql::ProjectById, id@))],
{
    let r = vec![Step::AnswerOne(projects::project_by_id(id))];
    assert(steps_view(r@) =~= seq![StepView::AnswerOne(keyed_view(Sql::ProjectById, id@))]);
    r
}

/// `PATCH /local/projects/{id}`: change the project at the current time and
/// answer with it.
pub fn update_project(id: &String, req: &UpdateProject) -> (r: Vec<Step>)
    ensures
        exists|now: Seq<char>|
            ends_with(now, "+00:00"@) && steps_view(r@) == seq![
                StepView::Run(project_update(id@, *req, now)),
                StepView::AnswerOne(keyed_view(Sql::ProjectById, id@)),
            ],
{
    let u = projects::update_project(id, req);
    let ghost uv = u@;
    let ghost now = choose|now: Seq<char>| ends_with(now, "+00:00"@) && uv == project_update(id@, *req, now);
    let r = vec![Step::Run(u), Step::AnswerOne(projects::project_by_id(id))];
    assert(steps_view(r@) =~= seq![
        StepView::Run(project_update(id@, *req, now)),
        StepView::AnswerOne(keyed_view(Sql::ProjectById, id@)),
    ]);
    r
}

/// `DELETE /local/projects/{id}`.
pub fn delete_project(id: &String) -> (r: Vec<Step>)
    ensures
        steps_view(r@) == run_all(project_deletion(id@)),
{
    let stmts = projects::delete_project(id);
    let ghost sv = stmts@;
    let r = runs(stmts);
    assert(steps_view(r@) =~= run_all(project_deletion(id@))) by {
        assert(sv.map_values(|s: crate::sql::Statement| s@) == project_deletion(id@));
        assert forall|j: int| 0 <= j < r.len() implies #[trigger] steps_view(r@)[j] == run_all(project_deletion(id@))[j] by {
            assert(sv.map_values(|s: crate::sql::Statement| s@)[j] == sv[j]@);
        }
    }
    r
}

/// `GET /local/projects/{id}/issues`.
pub fn list_issues(project_id: &String) -> (r: Vec<Step>)
    ensures
        steps_view(r@) == seq![StepView::AnswerAll(keyed_view(Sql::IssuesOfProject, project_id@))],
{
    let r = vec![Step::AnswerAll(issues::issues_of_project(project_id))];
    assert(steps_view(r@) =~= seq![StepView::AnswerAll(keyed_view(Sql::IssuesOfProject, project_id@))]);
    r
}

/// `POST /local/projects/{id}/issues`: number the issue, insert it and
/// answer with it.
pub fn create_issue(req: CreateIssue) -> (r: Vec<Step>)
    ensures
        steps_view(r@) == seq![StepView::Decide(DecisionView::NumberIssue(req))],
{
    let ghost rq = req;
    let r = vec![Step::Decide(Decision::NumberIssue(req))];
    assert(steps_view(r@) =~= seq![StepView::Decide(DecisionView::NumberIssue(rq))]);
    r
}

/// `PATCH /local/issues/{id}`: change the issue at the current time and
/// answer with it.
pub fn update_issue(id: &String, req: &UpdateIssue) -> (r: Vec<Step>)
    ensures
        exists|now: Seq<char>|
            ends_with(now, "+00:00"@) && steps_view(r@) == seq![
                StepView::Run(issue_update(id@, *req, now)),
                StepView::AnswerOne(keyed_view(Sql::IssueById, id@)),
            ],
{
    let u = issues::update_issue(id, req);
    let ghost uv = u@;
    let ghost now = choose|now: Seq<char>| ends_with(now, "+00:00"@) && uv == issue_update(id@, *req, now);
    let r = vec![Step::Run(u), Step::AnswerOne(issues::issue_by_id(id))];
    assert(steps_view(r@) =~= seq![
        StepView::Run(issue_update(id@, *req, now)),
        StepView::AnswerOne(keyed_view(Sql::IssueById, id@)),
    ]);
    r
}

/// `DELETE /local/issues/{id}`.
pub fn delete_issue(id: &String) -> (r: Vec<Step>)
    ensures
        steps_view(r@) == run_all(issue_deletion(id@)),
{
    let stmts = issues::delete_issue(id);
    let ghost sv = stmts@;
    let r = runs(stmts);
    assert(steps_view(r@) =~= run_all(issue_deletion(id@))) by {
        assert(sv.map_values(|s: crate::sql::Statement| s@) == issue_deletion(id@));
        assert forall|j: int| 0 <= j < r.len() implies #[trigger] steps_view(r@)[j] == run_all(issue_deletion(id@))[j] by {
            assert(sv.map_values(|s: crate::sql::Statement| s@)[j] == sv[j]@);
        }
    }
    r
}

/// `GET /local/projects/{id}/statuses`.
pub fn list_statuses(project_id: &String) -> (r: Vec<Step>)
    ensures
        steps_view(r@) == list_statuses_steps(project_id@),
{
    let r = vec![
        Step::Decide(Decision::SeedOrEnsureStatuses(project_id.clone())),
        Step::AnswerAll(statuses::statuses_of_project(project_id)),
    ];
    assert(steps_view(r@) =~= list_statuses_steps(project_id@));
    r
}

/// `POST /local/statuses`.
pub fn create_status(req: &CreateStatus) -> (r: Vec<Step>)
    ensures
        exists|id: Seq<char>, now: Seq<char>|
            is_uuid_v4_text(id) && ends_with(now, "+00:00"@) && steps_view(r@) == create_status_steps(*req, id, now),
{
    let c = statuses::create_status(req);
    let ghost id = c.id@;
    let ghost insert = c.insert@;
    let ghost now = choose|now: Seq<char>| ends_with(now, "+00:00"@) && insert == status_insert(*req, id, now);
    let r = vec![
        Step::Decide(Decision::SeedIfMissing(req.project_id.clone())),
        Step::Run(c.insert),
        Step::AnswerOne(c.fetch),
    ];
    assert(steps_view(r@) =~= create_status_steps(*req, id, now));
    r
}

/// `PATCH /local/statuses/{id}`: change the status and answer with it.
pub fn update_status(id: &String, req: &UpdateStatus) -> (r: Vec<Step>)
    ensures
        steps_view(r@) == seq![
            StepView::Run(status_update(id@, *req)),
            StepView::AnswerOne(keyed_view(Sql::StatusById, id@)),
        ],
{
    let r = vec![Step::Run(statuses::update_status(id, req)), Step::AnswerOne(statuses::status_by_id(id))];
    assert(steps_view(r@) =~= seq![
        StepView::Run(status_update(id@, *req)),
        StepView::AnswerOne(keyed_view(Sql::StatusById, id@)),
    ]);
    r
}

/// `DELETE /local/statuses/{id}`.
pub fn delete_status(id: &String) -> (r: Vec<Step>)
    ensures
        steps_view(r@) == seq![StepView::Run(keyed_view(Sql::DeleteStatus, id@))],
{
    let r = vec![Step::Run(statuses::delete_status(id))];
    assert(steps_view(r@) =~= seq![StepView::Run(keyed_view(Sql::DeleteStatus, id@))]);
    r
}

/// `GET /local/projects/{id}/tags`.
pub fn list_tags(project_id: &String) -> (r: Vec<Step>)
    ensures
        steps_view(r@) == list_tags_steps(project_id@),
{
    let r = vec![Step::Decide(Decision::EnsureTags(project_id.clone())), Step::AnswerAll(tags::tags_of_project(project_id))];
    assert(steps_view(r@) =~= list_tags_steps(project_id@));
    r
}

/// `POST /local/projects/{id}/tags`, given the text fields of the body.
pub fn create_tag(req: &CreateTag) -> (r: Vec<Step>)
    ensures
        exists|id: Seq<char>|
            is_uuid_v4_text(id) && steps_view(r@) == seq![
                StepView::Run(tag_insert(*req, id)),
                StepView::AnswerOne(keyed_view(Sql::TagById, id)),
            ],
{
    let c = tags::create_tag(req);
    let ghost id = c.id@;
    let r = vec![Step::Run(c.insert), Step::AnswerOne(c.fetch)];
    assert(steps_view(r@) =~= seq![StepView::Run(tag_insert(*req, id)), StepView::AnswerOne(keyed_view(Sql::TagById, id))]);
    r
}

/// `POST /local/issues/bulk`, given the entries of the body: every applied
/// entry at the current time.
pub fn bulk_update_issues(req: &BulkIssueUpdate) -> (r: Vec<Step>)
    ensures
        exists|now: Seq<char>| ends_with(now, "+00:00"@) && steps_view(r@) == run_all(bulk_update(*req, now)),
{
    let stmts = issues::bulk_update_issues(req);
    let ghost sv = stmts@;
    let ghost now = choose|now: Seq<char>|
        ends_with(now, "+00:00"@) && sv.map_values(|s: crate::sql::Statement| s@) == bulk_update(*req, now);
    let r = runs(stmts);
    assert(steps_view(r@) =~= run_all(bulk_update(*req, now))) by {
        assert forall|j: int| 0 <= j < r.len() implies #[trigger] steps_view(r@)[j] == run_all(bulk_update(*req, now))[j] by {
            assert(sv.map_values(|s: crate::sql::Statement| s@)[j] == sv[j]@);
        }
    }
    r
}

/// `GET /local/issues/{id}/tags`.
pub fn list_issue_tags(issue_id: &String) -> (r: Vec<Step>)
    ensures
        steps_view(r@) == seq![StepView::AnswerAll(keyed_view(Sql::IssueTagsOfIssue, issue_id@))],
{
    let r = vec![Step::AnswerAll(tags::issue_tags_of_issue(issue_id))];
    assert(steps_view(r@) =~= seq![StepView::AnswerAll(keyed_view(Sql::IssueTagsOfIssue, issue_id@))]);
    r
}

/// `POST /local/issue-tags`, given the text fields of the body.
pub fn create_issue_tag(req: &CreateIssueTag) -> (r: Vec<Step>)
    ensures
        exists|id: Seq<char>|
            is_uuid_v4_text(id) && steps_view(r@) == seq![
                StepView::Run(issue_tag_insert(*req, id)),
                StepView::AnswerOne(keyed_view(Sql::IssueTagById, id)),
            ],
{
    let c = tags::create_issue_tag(req);
    let ghost id = c.id@;
    let r = vec![Step::Run(c.insert), Step::AnswerOne(c.fetch)];
    assert(steps_view(r@) =~= seq![
        StepView::Run(issue_tag_insert(*req, id)),
        StepView::AnswerOne(keyed_view(Sql::IssueTagById, id)),
    ]);
    r
}

/// `DELETE /local/issue-tags/{id}`.
pub fn delete_issue_tag(id: &String) -> (r: Vec<Step>)
    ensures
        steps_view(r@) == seq![StepView::Run(keyed_view(Sql::DeleteIssueTag, id@))],
{
    let r = vec![Step::Run(tags::delete_issue_tag(id))];
    assert(steps_view(r@) =~= seq![StepView::Run(keyed_view(Sql::DeleteIssueTag, id@))]);
    r
}

/// `GET /local/issue-tags/by-project/{project_id}`.
pub fn list_project_issue_tags(project_id: &String) -> (r: Vec<Step>)
    ensures
        steps_view(r@) == seq![StepView::AnswerAll(keyed_view(Sql::IssueTagsOfProject, project_id@))],
{
    let r = vec![Step::AnswerAll(tags::issue_tags_of_project(project_id))];
    assert(steps_view(r@) =~= seq![StepView::AnswerAll(keyed_view(Sql::IssueTagsOfProject, project_id@))]);
    r
}

} // verus!

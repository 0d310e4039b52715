//! What each statement binds, value by value, in terms of the request it
//! comes from: which request field lands in which placeholder.
use vstd::prelude::*;
use crate::decimal::signed_decimal;
use crate::defaults::{
    default_statuses, default_tags, DEFAULT_COLOR, DEFAULT_STATUS_ID, SEED_ORGANIZATION_ID,
    SEED_PROJECT_COLOR, SEED_PROJECT_NAME,
};
use crate::issues::{bulk_update, issue_insert, issue_move, issue_update, move_applies};
use crate::laws::lemma_bulk_update_applies_exactly;
use crate::model::{
    BulkIssueUpdate, CreateIssue, CreateIssueTag, CreateProject, CreateStatus, CreateTag,
    IssueMove, UpdateIssue, UpdateProject, UpdateStatus,
};
use crate::projects::{project_insert, project_update, seed_project_insert_spec};
use crate::routes::{
    create_project_steps, create_status_steps, list_projects_steps, list_statuses_steps,
    list_tags_steps,
};
use crate::sql::{Sql, SqlValueView, StatementView};
use crate::statuses::{default_status_insert, hidden_column_spec, status_insert, status_update};
use crate::steps::{decision_query, decision_reads_i32, resolves_to, DecisionView, StepView};
use crate::defaults::SEED_PROJECT_ID;
use crate::statuses::inserted_id;
use crate::tags::{default_tag_insert, issue_tag_insert, tag_insert, text_or};

verus! {

/// `v` is the optional text `o`: the text where there is one, else `NULL`.
pub open spec fn is_optional_text(v: SqlValueView, o: Option<String>) -> bool {
    match o {
        Some(s) => v == SqlValueView::Text(s@),
        None => v == SqlValueView::Null,
    }
}

/// `v` is the text `o`, or the text `default` where `o` is absent.
pub open spec fn is_text_or(v: SqlValueView, o: Option<String>, default: Seq<char>) -> bool {
    match o {
        Some(s) => v == SqlValueView::Text(s@),
        None => v == SqlValueView::Text(default),
    }
}

/// `v` is the optional integer `o`: the integer where there is one, else `NULL`.
pub open spec fn is_optional_integer(v: SqlValueView, o: Option<i32>) -> bool {
    match o {
        Some(i) => v == SqlValueView::Integer(i as int),
        None => v == SqlValueView::Null,
    }
}

/// `v` is the optional floating-point value `o` (by its bits), else `NULL`.
pub open spec fn is_optional_real(v: SqlValueView, o: Option<crate::sql::RealBits>) -> bool {
    match o {
        Some(b) => v == SqlValueView::Real(b.bits),
        None => v == SqlValueView::Null,
    }
}

/// A new issue numbered `n` is inserted with: `?1` its id, `?2` the request's
/// project, `?3` the number, `?4` `DEV-n`, `?5` the request's status (the
/// default status where it has none), `?6` its title, `?7` its description,
/// `?8` its priority (each `NULL` only where the request has none), `?9` its
/// sort order (the number where it has none), `?10`..`?16` `NULL`, and
/// `?17` the creation time.
pub proof fn lemma_issue_insert_binds_the_request(req: CreateIssue, n: i32, id: Seq<char>, now: Seq<char>)
    ensures
        ({
            let s = issue_insert(req, n, id, now);
            &&& s.sql == Sql::InsertIssue
            &&& s.params.len() == 17
            &&& s.params[0] == SqlValueView::Text(id)
            &&& s.params[1] == SqlValueView::Text(req.project_id@)
            &&& s.params[2] == SqlValueView::Integer(n as int)
            &&& s.params[3] == SqlValueView::Text("DEV-"@ + signed_decimal(n as int))
            &&& is_text_or(s.params[4], req.status_id, DEFAULT_STATUS_ID@)
            &&& s.params[5] == SqlValueView::Text(req.title@)
            &&& is_optional_text(s.params[6], req.description)
            &&& is_optional_text(s.params[7], req.priority)
            &&& match req.sort_order {
                Some(b) => s.params[8] == SqlValueView::Real(b.bits),
                None => s.params[8] == SqlValueView::IntegerAsReal(n as int),
            }
            &&& forall|k: int| 9 <= k < 16 ==> s.params[k] == SqlValueView::Null
            &&& s.params[16] == SqlValueView::Text(now)
        }),
{
}

/// An issue change writes `?1` the request's status, `?2` its title, `?3` its
/// description, `?4` its priority, `?5` its sort order, `?6` its completion
/// time (each `NULL`, and so kept, only where the request has none), `?7`
/// the update time, and names the issue in `?8`.
pub proof fn lemma_issue_update_binds_the_request(id: Seq<char>, req: UpdateIssue, now: Seq<char>)
    ensures
        ({
            let s = issue_update(id, req, now);
            &&& s.sql == Sql::UpdateIssue
            &&& s.params.len() == 8
            &&& is_optional_text(s.params[0], req.status_id)
            &&& is_optional_text(s.params[1], req.title)
            &&& is_optional_text(s.params[2], req.description)
            &&& is_optional_text(s.params[3], req.priority)
            &&& is_optional_real(s.params[4], req.sort_order)
            &&& is_optional_text(s.params[5], req.completed_at)
            &&& s.params[6] == SqlValueView::Text(now)
            &&& s.params[7] == SqlValueView::Text(id)
        }),
{
}

/// Applying a bulk-update entry writes `?1` its status and `?2` its sort
/// order, each independently of the other and `NULL` only where the entry's
/// changes have none, `?3` the update time, and names the entry's issue in `?4`.
pub proof fn lemma_issue_move_binds_the_entry(m: IssueMove, now: Seq<char>)
    requires
        move_applies(m),
    ensures
        ({
            let s = issue_move(m, now);
            &&& s.sql == Sql::MoveIssue
            &&& s.params.len() == 4
            &&& m.changes matches Some(c) && is_optional_text(s.params[0], c.status_id)
                && is_optional_real(s.params[1], c.sort_order)
            &&& s.params[2] == SqlValueView::Text(now)
            &&& m.id matches Some(i) && s.params[3] == SqlValueView::Text(i@)
        }),
{
}

/// The `k`-th statement of a bulk update applies the `k`-th entry that names
/// an issue and carries changes: it writes that entry's status and sort order
/// (each `NULL` only where the entry has none), the update time, and names
/// that entry's issue.
pub proof fn lemma_bulk_update_binds_each_entry(req: BulkIssueUpdate, now: Seq<char>)
    ensures
        forall|k: int|
            0 <= k < bulk_update(req, now).len() ==> {
                let s = #[trigger] bulk_update(req, now)[k];
                let m = req.updates->Some_0@.filter(|e: IssueMove| move_applies(e))[k];
                &&& req.updates is Some
                &&& move_applies(m)
                &&& s.sql == Sql::MoveIssue
                &&& m.changes matches Some(c) && is_optional_text(s.params[0], c.status_id)
                    && is_optional_real(s.params[1], c.sort_order)
                &&& s.params[2] == SqlValueView::Text(now)
                &&& m.id matches Some(i) && s.params[3] == SqlValueView::Text(i@)
            },
{
    if let Some(u) = req.updates {
        let moves = u@;
        lemma_bulk_update_applies_exactly(moves, now);
        let kept = moves.filter(|e: IssueMove| move_applies(e));
        assert forall|k: int| 0 <= k < bulk_update(req, now).len() implies {
            let s = #[trigger] bulk_update(req, now)[k];
            let m = req.updates->Some_0@.filter(|e: IssueMove| move_applies(e))[k];
            &&& req.updates is Some
            &&& move_applies(m)
            &&& s.sql == Sql::MoveIssue
            &&& m.changes matches Some(c) && is_optional_text(s.params[0], c.status_id)
                && is_optional_real(s.params[1], c.sort_order)
            &&& s.params[2] == SqlValueView::Text(now)
            &&& m.id matches Some(i) && s.params[3] == SqlValueView::Text(i@)
        } by {
            moves.lemma_filter_pred(|e: IssueMove| move_applies(e), k);
            assert(bulk_update(req, now)[k] == issue_move(kept[k], now));
            lemma_issue_move_binds_the_entry(kept[k], now);
        }
    }
}

/// A new project is inserted with `?1` its id, `?2` the request's
/// organization, `?3` its name, `?4` its colour (the default colour where it
/// has none) and `?5` the creation time.
pub proof fn lemma_project_insert_binds_the_request(req: CreateProject, id: Seq<char>, now: Seq<char>)
    ensures
        ({
            let s = project_insert(req, id, now);
            &&& s.sql == Sql::InsertProject
            &&& s.params.len() == 5
            &&& s.params[0] == SqlValueView::Text(id)
            &&& s.params[1] == SqlValueView::Text(req.organization_id@)
            &&& s.params[2] == SqlValueView::Text(req.name@)
            &&& is_text_or(s.params[3], req.color, DEFAULT_COLOR@)
            &&& s.params[4] == SqlValueView::Text(now)
        }),
{
}

/// A project change writes `?1` the request's name, `?2` its colour, `?3` its
/// sort order (each `NULL`, and so kept, only where the request has none),
/// `?4` the update time, and names the project in `?5`.
pub proof fn lemma_project_update_binds_the_request(id: Seq<char>, req: UpdateProject, now: Seq<char>)
    ensures
        ({
            let s = project_update(id, req, now);
            &&& s.sql == Sql::UpdateProject
            &&& s.params.len() == 5
            &&& is_optional_text(s.params[0], req.name)
            &&& is_optional_text(s.params[1], req.color)
            &&& is_optional_integer(s.params[2], req.sort_order)
            &&& s.params[3] == SqlValueView::Text(now)
            &&& s.params[4] == SqlValueView::Text(id)
        }),
{
}

/// The seeded project is inserted under the given id, in the seed
/// organization, with the seed name and colour, at the given time.
pub proof fn lemma_seed_insert_binds_the_seed(project_id: Seq<char>, now: Seq<char>)
    ensures
        ({
            let s = seed_project_insert_spec(project_id, now);
            &&& s.sql == Sql::SeedProject
            &&& s.params.len() == 5
            &&& s.params[0] == SqlValueView::Text(project_id)
            &&& s.params[1] == SqlValueView::Text(SEED_ORGANIZATION_ID@)
            &&& s.params[2] == SqlValueView::Text(SEED_PROJECT_NAME@)
            &&& s.params[3] == SqlValueView::Text(SEED_PROJECT_COLOR@)
            &&& s.params[4] == SqlValueView::Text(now)
        }),
{
}

/// A new status is inserted with `?1` its id, `?2` the request's project,
/// `?3` its name, `?4` its colour (the default colour where it has none),
/// `?5` its sort order (0 where it has none) and `?6` the creation time.
pub proof fn lemma_status_insert_binds_the_request(req: CreateStatus, id: Seq<char>, now: Seq<char>)
    ensures
        ({
            let s = status_insert(req, id, now);
            &&& s.sql == Sql::InsertStatus
            &&& s.params.len() == 6
            &&& s.params[0] == SqlValueView::Text(id)
            &&& s.params[1] == SqlValueView::Text(req.project_id@)
            &&& s.params[2] == SqlValueView::Text(req.name@)
            &&& is_text_or(s.params[3], req.color, DEFAULT_COLOR@)
            &&& match req.sort_order {
                Some(o) => s.params[4] == SqlValueView::Integer(o as int),
                None => s.params[4] == SqlValueView::Integer(0),
            }
            &&& s.params[5] == SqlValueView::Text(now)
        }),
{
}

/// A status change writes `?1` the request's name, `?2` its colour, `?3` its
/// sort order, `?4` its hidden flag as 1 or 0 (each `NULL`, and so kept,
/// only where the request has none), and names the status in `?5`.
pub proof fn lemma_status_update_binds_the_request(id: Seq<char>, req: UpdateStatus)
    ensures
        ({
            let s = status_update(id, req);
            &&& s.sql == Sql::UpdateStatus
            &&& s.params.len() == 5
            &&& is_optional_text(s.params[0], req.name)
            &&& is_optional_text(s.params[1], req.color)
            &&& is_optional_integer(s.params[2], req.sort_order)
            &&& match req.hidden {
                Some(true) => s.params[3] == SqlValueView::Integer(1),
                Some(false) => s.params[3] == SqlValueView::Integer(0),
                None => s.params[3] == SqlValueView::Null,
            }
            &&& s.params[4] == SqlValueView::Text(id)
        }),
{
}

/// A new tag is inserted with `?1` its id, `?2` the body's project and `?3`
/// its name (empty where the body has none), and `?4` its colour (the default
/// colour where the body has none).
pub proof fn lemma_tag_insert_binds_the_request(req: CreateTag, id: Seq<char>)
    ensures
        ({
            let s = tag_insert(req, id);
            &&& s.sql == Sql::InsertTag
            &&& s.params.len() == 4
            &&& s.params[0] == SqlValueView::Text(id)
            &&& is_text_or(s.params[1], req.project_id, Seq::empty())
            &&& is_text_or(s.params[2], req.name, Seq::empty())
            &&& is_text_or(s.params[3], req.color, DEFAULT_COLOR@)
        }),
{
}

/// A tag is attached with `?1` the attachment's id, `?2` the body's issue and
/// `?3` its tag (each empty where the body has none).
pub proof fn lemma_issue_tag_insert_binds_the_request(req: CreateIssueTag, id: Seq<char>)
    ensures
        ({
            let s = issue_tag_insert(req, id);
            &&& s.sql == Sql::InsertIssueTag
            &&& s.params.len() == 3
            &&& s.params[0] == SqlValueView::Text(id)
            &&& is_text_or(s.params[1], req.issue_id, Seq::empty())
            &&& is_text_or(s.params[2], req.tag_id, Seq::empty())
        }),
{
}

/// The `j`-th default status is inserted into the given project under the
/// given id with the `j`-th default name, colour and sort order.
pub proof fn lemma_default_status_insert_binds_the_seed(project_id: Seq<char>, id: Seq<char>, j: int)
    requires
        0 <= j < default_statuses().len(),
    ensures
        ({
            let seed = default_statuses()[j];
            let s = default_status_insert(project_id, id, seed);
            &&& s.sql == Sql::InsertDefaultStatus
            &&& s.params == seq![
                SqlValueView::Text(id),
                SqlValueView::Text(project_id),
                SqlValueView::Text(seed.name@),
                SqlValueView::Text(seed.color@),
                SqlValueView::Integer(seed.sort_order as int),
            ]
            &&& seed.sort_order == j
        }),
{
}

/// The `j`-th default tag is inserted into the given project under the given
/// id with the `j`-th default name and colour.
pub proof fn lemma_default_tag_insert_binds_the_seed(project_id: Seq<char>, id: Seq<char>, j: int)
    requires
        0 <= j < default_tags().len(),
    ensures
        ({
            let seed = default_tags()[j];
            let s = default_tag_insert(project_id, id, seed);
            &&& s.sql == Sql::InsertTag
            &&& s.params == seq![
                SqlValueView::Text(id),
                SqlValueView::Text(project_id),
                SqlValueView::Text(seed.name@),
                SqlValueView::Text(seed.color@),
            ]
        }),
{
}

/// A statement that names one record by one key.
pub open spec fn is_keyed(s: StatementView, sql: Sql, key: Seq<char>) -> bool {
    s.sql == sql && s.params == seq![SqlValueView::Text(key)]
}

/// Listing projects answers with the projects of the query's organization:
/// the one it names where it names one, else the empty one.
pub proof fn lemma_project_listing_filters_by_the_query(organization_id: Option<String>)
    ensures
        ({
            let steps = list_projects_steps(text_or(organization_id, Seq::empty()));
            &&& steps.len() == 2
            &&& steps[0] == StepView::Decide(DecisionView::SeedIfNoProjects)
            &&& steps[1] matches StepView::AnswerAll(s) && match organization_id {
                Some(o) => is_keyed(s, Sql::ProjectsInOrganization, o@),
                None => is_keyed(s, Sql::ProjectsInOrganization, Seq::empty()),
            }
        }),
{
}

/// Creating a project runs its insert, makes sure of its statuses and tags,
/// and answers with the project read by its id.
pub proof fn lemma_project_creation_steps(req: CreateProject, id: Seq<char>, now: Seq<char>)
    ensures
        ({
            let steps = create_project_steps(req, id, now);
            &&& steps.len() == 4
            &&& steps[0] == StepView::Run(project_insert(req, id, now))
            &&& steps[1] == StepView::Decide(DecisionView::EnsureStatuses(id))
            &&& steps[2] == StepView::Decide(DecisionView::EnsureTags(id))
            &&& steps[3] matches StepView::AnswerOne(s) && is_keyed(s, Sql::ProjectById, id)
        }),
{
}

/// Listing statuses decides on the project's presence and answers with that
/// project's statuses; listing tags makes sure of the project's tags and
/// answers with them.
pub proof fn lemma_listing_steps_name_the_project(project_id: Seq<char>)
    ensures
        list_statuses_steps(project_id).len() == 2,
        list_statuses_steps(project_id)[0] == StepView::Decide(DecisionView::SeedOrEnsureStatuses(project_id)),
        list_statuses_steps(project_id)[1] matches StepView::AnswerAll(s) && is_keyed(
            s,
            Sql::StatusesOfProject,
            project_id,
        ),
        list_tags_steps(project_id).len() == 2,
        list_tags_steps(project_id)[0] == StepView::Decide(DecisionView::EnsureTags(project_id)),
        list_tags_steps(project_id)[1] matches StepView::AnswerAll(s) && is_keyed(s, Sql::TagsOfProject, project_id),
{
}

/// Creating a status seeds the request's project where it is missing, runs
/// the status's insert, and answers with the status read by its id.
pub proof fn lemma_status_creation_steps(req: CreateStatus, id: Seq<char>, now: Seq<char>)
    ensures
        ({
            let steps = create_status_steps(req, id, now);
            &&& steps.len() == 3
            &&& steps[0] == StepView::Decide(DecisionView::SeedIfMissing(req.project_id@))
            &&& steps[1] == StepView::Run(status_insert(req, id, now))
            &&& steps[2] matches StepView::AnswerOne(s) && is_keyed(s, Sql::StatusById, id)
        }),
{
}

/// The stored hidden flag is 1 for a hidden status and 0 for a shown one.
pub proof fn lemma_hidden_column_values()
    ensures
        hidden_column_spec(true) == 1,
        hidden_column_spec(false) == 0,
{
}

/// Each decision reads the count it decides on: the project's statuses or
/// tags, all projects (as a 32-bit number), the projects with the given id,
/// or the project's next issue number (as a 32-bit number).
pub proof fn lemma_decisions_read_their_count(project_id: Seq<char>, req: CreateIssue)
    ensures
        is_keyed(decision_query(DecisionView::EnsureStatuses(project_id)), Sql::CountStatuses, project_id),
        is_keyed(decision_query(DecisionView::EnsureTags(project_id)), Sql::CountTags, project_id),
        decision_query(DecisionView::SeedIfNoProjects).sql == Sql::CountProjects,
        decision_query(DecisionView::SeedIfNoProjects).params.len() == 0,
        is_keyed(decision_query(DecisionView::SeedIfMissing(project_id)), Sql::CountProjectsWithId, project_id),
        is_keyed(decision_query(DecisionView::SeedOrEnsureStatuses(project_id)), Sql::CountProjectsWithId, project_id),
        is_keyed(decision_query(DecisionView::NumberIssue(req)), Sql::NextIssueNumber, req.project_id@),
        decision_reads_i32(DecisionView::SeedIfNoProjects),
        decision_reads_i32(DecisionView::NumberIssue(req)),
        !decision_reads_i32(DecisionView::EnsureStatuses(project_id)),
        !decision_reads_i32(DecisionView::EnsureTags(project_id)),
        !decision_reads_i32(DecisionView::SeedIfMissing(project_id)),
        !decision_reads_i32(DecisionView::SeedOrEnsureStatuses(project_id)),
{
}

/// Listing projects seeds the local development project exactly when no
/// project was counted: it inserts that project, then makes sure of its
/// statuses and tags; otherwise it does nothing first.
pub proof fn lemma_project_listing_seeds_only_an_empty_store(count: int, then: Seq<StepView>)
    requires
        resolves_to(DecisionView::SeedIfNoProjects, count, then),
    ensures
        count != 0 ==> then.len() == 0,
        count == 0 ==> then.len() == 3,
        count == 0 ==> (then[0] matches StepView::Run(s) && s.sql == Sql::SeedProject && s.params[0]
            == SqlValueView::Text(SEED_PROJECT_ID@)),
        count == 0 ==> then[1] == StepView::Decide(DecisionView::EnsureStatuses(SEED_PROJECT_ID@)),
        count == 0 ==> then[2] == StepView::Decide(DecisionView::EnsureTags(SEED_PROJECT_ID@)),
{
}

/// Making sure of a project's statuses inserts nothing where it has some,
/// and else one status per default, in order, each into that project under
/// a fresh id with the default's name, colour and position.
pub proof fn lemma_status_defaults_inserted_only_when_none(project_id: Seq<char>, count: int, then: Seq<StepView>)
    requires
        resolves_to(DecisionView::EnsureStatuses(project_id), count, then),
    ensures
        count > 0 ==> then.len() == 0,
        count <= 0 ==> then.len() == 4,
        count <= 0 ==> forall|j: int|
            0 <= j < 4 ==> (#[trigger] then[j] matches StepView::Run(s) && s.sql == Sql::InsertDefaultStatus
                && s.params[1] == SqlValueView::Text(project_id)
                && s.params[2] == SqlValueView::Text(default_statuses()[j].name@)
                && s.params[3] == SqlValueView::Text(default_statuses()[j].color@)
                && s.params[4] == SqlValueView::Integer(j)
                && crate::ids::is_uuid_v4_text(inserted_id(s))),
{
    if count <= 0 {
        assert forall|j: int| 0 <= j < 4 implies (#[trigger] then[j] matches StepView::Run(s) && s.sql
            == Sql::InsertDefaultStatus && s.params[1] == SqlValueView::Text(project_id) && s.params[2]
            == SqlValueView::Text(default_statuses()[j].name@) && s.params[3] == SqlValueView::Text(
            default_statuses()[j].color@,
        ) && s.params[4] == SqlValueView::Integer(j) && crate::ids::is_uuid_v4_text(inserted_id(s))) by {
            assert(crate::steps::runs_default_status_insert(project_id, then[j], j));
        }
    }
}

/// Making sure of a project's tags inserts nothing where it has some, and
/// else one tag per default, in order, each into that project under a fresh
/// id with the default's name and colour.
pub proof fn lemma_tag_defaults_inserted_only_when_none(project_id: Seq<char>, count: int, then: Seq<StepView>)
    requires
        resolves_to(DecisionView::EnsureTags(project_id), count, then),
    ensures
        count > 0 ==> then.len() == 0,
        count <= 0 ==> then.len() == 3,
        count <= 0 ==> forall|j: int|
            0 <= j < 3 ==> (#[trigger] then[j] matches StepView::Run(s) && s.sql == Sql::InsertTag
                && s.params[1] == SqlValueView::Text(project_id)
                && s.params[2] == SqlValueView::Text(default_tags()[j].name@)
                && s.params[3] == SqlValueView::Text(default_tags()[j].color@)
                && crate::ids::is_uuid_v4_text(inserted_id(s))),
{
    if count <= 0 {
        assert forall|j: int| 0 <= j < 3 implies (#[trigger] then[j] matches StepView::Run(s) && s.sql
            == Sql::InsertTag && s.params[1] == SqlValueView::Text(project_id) && s.params[2]
            == SqlValueView::Text(default_tags()[j].name@) && s.params[3] == SqlValueView::Text(
            default_tags()[j].color@,
        ) && crate::ids::is_uuid_v4_text(inserted_id(s))) by {
            assert(crate::steps::runs_default_tag_insert(project_id, then[j], j));
        }
    }
}

} // verus!

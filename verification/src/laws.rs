//! Properties that span the statements of several requests.
use vstd::prelude::*;
use crate::issues::{issue_insert, issue_move, issue_moves, move_applies};
use crate::model::{CreateIssue, CreateIssueTag, CreateProject, CreateStatus, CreateTag, IssueMove};
use crate::projects::{project_deletion, project_insert};
use crate::sql::{Sql, SqlValueView};
use crate::statuses::{inserted_id, seeded_status_count, status_insert};
use crate::tags::{issue_tag_insert, seeded_tag_count, tag_insert};
use crate::issues::simple_id_spec;
use crate::projects::seed_project_insert_spec;
use crate::routes::{create_project_steps, create_status_steps, keyed_view, list_statuses_steps};
use crate::sql::statement;
use crate::steps::{resolves_to, DecisionView, StepView};

verus! {

/// Making sure of a project's default statuses twice inserts them once:
/// once the first run's inserts are in, the project has statuses, and the
/// second run inserts none.
pub proof fn lemma_status_seeding_is_idempotent(existing_count: int, later_count: int)
    requires
        existing_count >= 0,
        later_count >= existing_count + seeded_status_count(existing_count),
    ensures
        seeded_status_count(later_count) == 0,
{
}

/// Making sure of a project's default tags twice inserts them once.
pub proof fn lemma_tag_seeding_is_idempotent(existing_count: int, later_count: int)
    requires
        existing_count >= 0,
        later_count >= existing_count + seeded_tag_count(existing_count),
    ensures
        seeded_tag_count(later_count) == 0,
{
}

/// A created record is inserted under the id that creation reads it back by:
/// the first value each insert binds is the new id.
pub proof fn lemma_inserts_bind_the_new_id(
    project: CreateProject,
    issue: CreateIssue,
    issue_number: i32,
    status: CreateStatus,
    tag: CreateTag,
    issue_tag: CreateIssueTag,
    id: Seq<char>,
    now: Seq<char>,
)
    ensures
        inserted_id(project_insert(project, id, now)) == id,
        inserted_id(issue_insert(issue, issue_number, id, now)) == id,
        inserted_id(status_insert(status, id, now)) == id,
        inserted_id(tag_insert(tag, id)) == id,
        inserted_id(issue_tag_insert(issue_tag, id)) == id,
{
}

/// Deleting a project removes the tag attachments of its issues before its
/// issues, its issues, tags and statuses before the project itself, and
/// every statement names the project.
pub proof fn lemma_project_deletion_cascades(id: Seq<char>)
    ensures
        project_deletion(id).len() == 5,
        forall|k: int| 0 <= k < 5 ==> (#[trigger] project_deletion(id)[k]).params == seq![SqlValueView::Text(id)],
        project_deletion(id)[0].sql == Sql::DeleteProjectIssueTags,
        project_deletion(id)[1].sql == Sql::DeleteProjectIssues,
        project_deletion(id)[2].sql == Sql::DeleteProjectTags,
        project_deletion(id)[3].sql == Sql::DeleteProjectStatuses,
        project_deletion(id).last().sql == Sql::DeleteProject,
{
}

/// A bulk update applies exactly its entries that name an issue and carry
/// changes, in their order, all at the same time.
pub proof fn lemma_bulk_update_applies_exactly(moves: Seq<IssueMove>, now: Seq<char>)
    ensures
        issue_moves(moves, now) == moves.filter(|m: IssueMove| move_applies(m)).map_values(
            |m: IssueMove| issue_move(m, now),
        ),
        forall|k: int|
            0 <= k < issue_moves(moves, now).len() ==> (#[trigger] issue_moves(moves, now)[k]).sql
                == Sql::MoveIssue && issue_moves(moves, now)[k].params[2] == SqlValueView::Text(now),
    decreases moves.len(),
{
    reveal_with_fuel(Seq::<_>::filter, 1);
    let pred = |m: IssueMove| move_applies(m);
    if moves.len() > 0 {
        lemma_bulk_update_applies_exactly(moves.drop_last(), now);
        let earlier = moves.drop_last().filter(pred);
        if move_applies(moves.last()) {
            assert(earlier.push(moves.last()).map_values(|m: IssueMove| issue_move(m, now))
                =~= earlier.map_values(|m: IssueMove| issue_move(m, now)).push(issue_move(moves.last(), now)));
        }
    } else {
        assert(moves.filter(pred).map_values(|m: IssueMove| issue_move(m, now)) =~= Seq::empty());
    }
}

/// Listing a project's statuses always first makes sure that the project has
/// statuses: whatever number of projects with its id is read, the steps that
/// follow make sure of the project's statuses (after seeding it, where it is
/// missing), and the answer lists that project's statuses.
pub proof fn lemma_listing_statuses_ensures_them(project_id: Seq<char>, count: int, then: Seq<StepView>)
    requires
        resolves_to(DecisionView::SeedOrEnsureStatuses(project_id), count, then),
    ensures
        then.contains(StepView::Decide(DecisionView::EnsureStatuses(project_id))),
        list_statuses_steps(project_id).last() == StepView::AnswerAll(keyed_view(Sql::StatusesOfProject, project_id)),
        count == 0 ==> then[0] is Run && then[0]->Run_0.sql == Sql::SeedProject,
{
    if count == 0 {
        let now = choose|now: Seq<char>|
            crate::ids::ends_with(now, "+00:00"@) && then == crate::steps::seeding(project_id, now);
        assert(then[1] == StepView::Decide(DecisionView::EnsureStatuses(project_id)));
    } else {
        assert(then[0] == StepView::Decide(DecisionView::EnsureStatuses(project_id)));
    }
}

/// A created project is made sure of its default statuses and of its
/// default tags before it is read back, all under the id it was inserted with.
pub proof fn lemma_created_project_gets_defaults(req: CreateProject, id: Seq<char>, now: Seq<char>)
    ensures
        create_project_steps(req, id, now)[0] == StepView::Run(project_insert(req, id, now)),
        inserted_id(project_insert(req, id, now)) == id,
        create_project_steps(req, id, now)[1] == StepView::Decide(DecisionView::EnsureStatuses(id)),
        create_project_steps(req, id, now)[2] == StepView::Decide(DecisionView::EnsureTags(id)),
        create_project_steps(req, id, now).last() == StepView::AnswerOne(keyed_view(Sql::ProjectById, id)),
{
}

/// A status created in a project that does not exist yet is inserted only
/// after the project is seeded; in an existing project nothing comes first.
pub proof fn lemma_status_creation_seeds_missing_project(
    req: CreateStatus,
    id: Seq<char>,
    now: Seq<char>,
    count: int,
    then: Seq<StepView>,
)
    requires
        resolves_to(DecisionView::SeedIfMissing(req.project_id@), count, then),
    ensures
        create_status_steps(req, id, now)[0] == StepView::Decide(DecisionView::SeedIfMissing(req.project_id@)),
        create_status_steps(req, id, now)[1] == StepView::Run(status_insert(req, id, now)),
        count == 0 ==> exists|seed_now: Seq<char>|
            then[0] == StepView::Run(seed_project_insert_spec(req.project_id@, seed_now)),
        count == 0 ==> then[1] == StepView::Decide(DecisionView::EnsureStatuses(req.project_id@)),
        count == 0 ==> then[2] == StepView::Decide(DecisionView::EnsureTags(req.project_id@)),
        count != 0 ==> then.len() == 0,
{
}

/// An issue numbered `n` is inserted with number `n`, short id `DEV-n`, and,
/// where the request gives no sort order, sort order `n`; it is then read
/// back by the id it was inserted with.
pub proof fn lemma_issue_numbering(req: CreateIssue, n: int, then: Seq<StepView>)
    requires
        i32::MIN <= n <= i32::MAX,
        resolves_to(DecisionView::NumberIssue(req), n, then),
    ensures
        then.len() == 2,
        then[0] is Run,
        then[0]->Run_0.sql == Sql::InsertIssue,
        then[0]->Run_0.params[2] == SqlValueView::Integer(n),
        then[0]->Run_0.params[3] == SqlValueView::Text(simple_id_spec(n)),
        req.sort_order is None ==> then[0]->Run_0.params[8] == SqlValueView::IntegerAsReal(n),
        then[1] == StepView::AnswerOne(statement(Sql::IssueById, seq![SqlValueView::Text(inserted_id(then[0]->Run_0))])),
{
    let (id, now) = choose|id: Seq<char>, now: Seq<char>|
        crate::ids::is_uuid_v4_text(id) && crate::ids::ends_with(now, "+00:00"@) && then == seq![
            StepView::Run(issue_insert(req, n as i32, id, now)),
            StepView::AnswerOne(statement(Sql::IssueById, seq![SqlValueView::Text(id)])),
        ];
    assert(then[0]->Run_0 == issue_insert(req, n as i32, id, now));
}

} // verus!

//! Tags: the defaults every project starts with, creating and listing tags,
//! and attaching tags to issues.
use vstd::prelude::*;
use crate::defaults::{default_tag_seeds, default_tags, TagSeed, DEFAULT_COLOR};
use crate::ids::{is_uuid_v4_text, new_id};
use crate::model::{CreateIssueTag, CreateTag, Creation};
use crate::sql::{keyed, statement, str_value, text_value, Sql, SqlValue, SqlValueView, Statement, StatementView};
use crate::statuses::inserted_id;

verus! {

/// The statement that inserts the default tag `seed` under `id` into a project.
pub open spec fn default_tag_insert(project_id: Seq<char>, id: Seq<char>, seed: TagSeed) -> StatementView {
    statement(
        Sql::InsertTag,
        seq![
            SqlValueView::Text(id),
            SqlValueView::Text(project_id),
            SqlValueView::Text(seed.name@),
            SqlValueView::Text(seed.color@),
        ],
    )
}

/// A text field of a request body, or `default` where the body has none.
pub open spec fn text_or(field: Option<String>, default: Seq<char>) -> Seq<char> {
    match field {
        Some(s) => s@,
        None => default,
    }
}

/// The insert of a new tag: an absent project id or name is empty, an absent
/// colour is the default colour.
pub open spec fn tag_insert(req: CreateTag, id: Seq<char>) -> StatementView {
    statement(
        Sql::InsertTag,
        seq![
            SqlValueView::Text(id),
            SqlValueView::Text(text_or(req.project_id, Seq::empty())),
            SqlValueView::Text(text_or(req.name, Seq::empty())),
            SqlValueView::Text(text_or(req.color, DEFAULT_COLOR@)),
        ],
    )
}

/// The insert that attaches a tag to an issue: an absent id is empty.
pub open spec fn issue_tag_insert(req: CreateIssueTag, id: Seq<char>) -> StatementView {
    statement(
        Sql::InsertIssueTag,
        seq![
            SqlValueView::Text(id),
            SqlValueView::Text(text_or(req.issue_id, Seq::empty())),
            SqlValueView::Text(text_or(req.tag_id, Seq::empty())),
        ],
    )
}

/// How many tags making sure a project has tags inserts, given how many it
/// has: none when it has any, else one per default tag.
pub open spec fn seeded_tag_count(existing_count: int) -> nat {
    if existing_count > 0 {
        0
    } else {
        default_tags().len()
    }
}

/// The statement that counts the tags of a project.
pub fn count_tags(project_id: &String) -> (r: Statement)
    ensures
        r@ == statement(Sql::CountTags, seq![SqlValueView::Text(project_id@)]),
{
    keyed(Sql::CountTags, project_id)
}

/// The inserts of the default tags into a project, the `j`-th under `ids[j]`.
pub fn insert_default_tags(project_id: &String, ids: &Vec<String>) -> (r: Vec<Statement>)
    requires
        ids.len() == default_tags().len(),
    ensures
        r.len() == default_tags().len(),
        forall|j: int|
            0 <= j < r.len() ==> #[trigger] r@[j]@ == default_tag_insert(
                project_id@,
                ids@[j]@,
                default_tags()[j],
            ),
{
    let seeds = default_tag_seeds();
    let mut out: Vec<Statement> = Vec::new();
    let mut i: usize = 0;
    while i < seeds.len()
        invariant
            i <= seeds.len(),
            seeds@ == default_tags(),
            ids.len() == seeds.len(),
            out.len() == i,
            forall|j: int|
                0 <= j < i ==> #[trigger] out@[j]@ == default_tag_insert(
                    project_id@,
                    ids@[j]@,
                    seeds@[j],
                ),
        decreases seeds.len() - i,
    {
        let seed = seeds[i];
        let params = vec![
            text_value(&ids[i]),
            text_value(project_id),
            str_value(seed.name),
            str_value(seed.color),
        ];
        proof {
            assert(params@.map_values(|v: SqlValue| v@) =~= default_tag_insert(
                project_id@,
                ids@[i as int]@,
                seed,
            ).params);
        }
        out.push(Statement::new(Sql::InsertTag, params));
        i += 1;
    }
    out
}

/// What making sure a project has tags inserts, given how many it has:
/// nothing when it has any, else the default tags, each under a fresh id.
pub fn ensure_default_tags(project_id: &String, existing_count: i64) -> (r: Vec<Statement>)
    ensures
        r.len() == seeded_tag_count(existing_count as int),
        existing_count <= 0 ==> forall|j: int|
            0 <= j < r.len() ==> #[trigger] r@[j]@ == default_tag_insert(
                project_id@,
                inserted_id(r@[j]@),
                default_tags()[j],
            ) && is_uuid_v4_text(inserted_id(r@[j]@)),
{
    if existing_count > 0 {
        return Vec::new();
    }
    let mut ids: Vec<String> = Vec::new();
    let n: usize = default_tag_seeds().len();
    while ids.len() < n
        invariant
            n == default_tags().len(),
            ids.len() <= n,
            forall|j: int| 0 <= j < ids.len() ==> is_uuid_v4_text(#[trigger] ids@[j]@),
        decreases n - ids.len(),
    {
        ids.push(new_id());
    }
    let r = insert_default_tags(project_id, &ids);
    assert forall|j: int| 0 <= j < r.len() implies inserted_id(#[trigger] r@[j]@) == ids@[j]@ by {
        assert(r@[j]@.params[0] == SqlValueView::Text(ids@[j]@));
    }
    r
}

/// The statement that lists a project's tags.
pub fn tags_of_project(project_id: &String) -> (r: Statement)
    ensures
        r@ == statement(Sql::TagsOfProject, seq![SqlValueView::Text(project_id@)]),
{
    keyed(Sql::TagsOfProject, project_id)
}

/// The statement that reads a tag.
pub fn tag_by_id(id: &String) -> (r: Statement)
    ensures
        r@ == statement(Sql::TagById, seq![SqlValueView::Text(id@)]),
{
    keyed(Sql::TagById, id)
}

/// A text field of a request body, or `default` where it has none.
fn text_field_or(field: &Option<String>, default: &str) -> (r: SqlValue)
    ensures
        r@ == SqlValueView::Text(text_or(*field, default@)),
{
    match field {
        Some(s) => text_value(s),
        None => str_value(default),
    }
}

/// Creating a tag under the given id.
pub fn create_tag_with(req: &CreateTag, id: String) -> (r: Creation)
    ensures
        r.id@ == id@,
        r.insert@ == tag_insert(*req, id@),
        r.fetch@ == statement(Sql::TagById, seq![SqlValueView::Text(id@)]),
{
    proof {
        reveal_strlit("");
        assert(""@ =~= Seq::<char>::empty());
    }
    let params = vec![
        text_value(&id),
        text_field_or(&req.project_id, ""),
        text_field_or(&req.name, ""),
        text_field_or(&req.color, DEFAULT_COLOR),
    ];
    proof {
        assert(params@.map_values(|v: SqlValue| v@) =~= tag_insert(*req, id@).params);
    }
    let insert = Statement::new(Sql::InsertTag, params);
    let fetch = tag_by_id(&id);
    Creation { id, insert, fetch }
}

/// Creating a tag: a fresh id and [`create_tag_with`] on it.
pub fn create_tag(req: &CreateTag) -> (r: Creation)
    ensures
        is_uuid_v4_text(r.id@),
        r.insert@ == tag_insert(*req, r.id@),
        r.fetch@ == statement(Sql::TagById, seq![SqlValueView::Text(r.id@)]),
{
    create_tag_with(req, new_id())
}

/// The statement that lists the tags attached to an issue.
pub fn issue_tags_of_issue(issue_id: &String) -> (r: Statement)
    ensures
        r@ == statement(Sql::IssueTagsOfIssue, seq![SqlValueView::Text(issue_id@)]),
{
    keyed(Sql::IssueTagsOfIssue, issue_id)
}

/// The statement that lists the tags attached to the issues of a project.
pub fn issue_tags_of_project(project_id: &String) -> (r: Statement)
    ensures
        r@ == statement(Sql::IssueTagsOfProject, seq![SqlValueView::Text(project_id@)]),
{
    keyed(Sql::IssueTagsOfProject, project_id)
}

/// The statement that reads an attachment of a tag to an issue.
pub fn issue_tag_by_id(id: &String) -> (r: Statement)
    ensures
        r@ == statement(Sql::IssueTagById, seq![SqlValueView::Text(id@)]),
{
    keyed(Sql::IssueTagById, id)
}

/// The statement that detaches a tag from an issue.
pub fn delete_issue_tag(id: &String) -> (r: Statement)
    ensures
        r@ == statement(Sql::DeleteIssueTag, seq![SqlValueView::Text(id@)]),
{
    keyed(Sql::DeleteIssueTag, id)
}

/// Attaching a tag to an issue under the given id.
pub fn create_issue_tag_with(req: &CreateIssueTag, id: String) -> (r: Creation)
    ensures
        r.id@ == id@,
        r.insert@ == issue_tag_insert(*req, id@),
        r.fetch@ == statement(Sql::IssueTagById, seq![SqlValueView::Text(id@)]),
{
    proof {
        reveal_strlit("");
        assert(""@ =~= Seq::<char>::empty());
    }
    let params = vec![
        text_value(&id),
        text_field_or(&req.issue_id, ""),
        text_field_or(&req.tag_id, ""),
    ];
    proof {
        assert(params@.map_values(|v: SqlValue| v@) =~= issue_tag_insert(*req, id@).params);
    }
    let insert = Statement::new(Sql::InsertIssueTag, params);
    let fetch = issue_tag_by_id(&id);
    Creation { id, insert, fetch }
}

/// Attaching a tag to an issue: a fresh id and [`create_issue_tag_with`] on it.
pub fn create_issue_tag(req: &CreateIssueTag) -> (r: Creation)
    ensures
        is_uuid_v4_text(r.id@),
        r.insert@ == issue_tag_insert(*req, r.id@),
        r.fetch@ == statement(Sql::IssueTagById, seq![SqlValueView::Text(r.id@)]),
{
    create_issue_tag_with(req, new_id())
}

} // verus!

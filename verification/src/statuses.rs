//! Workflow statuses: the defaults every project starts with, and creating,
//! listing, changing and deleting statuses.
use vstd::prelude::*;
use crate::defaults::{default_status_seeds, default_statuses, StatusSeed, DEFAULT_COLOR};
use crate::ids::{ends_with, is_uuid_v4_text, new_id, now_timestamp};
use crate::model::{CreateStatus, Creation, LocalStatus, StatusRow, UpdateStatus};
use crate::sql::{
    keyed, opt_integer, opt_integer_value, opt_text, opt_text_value, statement, str_value,
    text_value, Sql, SqlValue, SqlValueView, Statement, StatementView,
};

verus! {

/// The statement that inserts the default status `seed` under `id` into a project.
pub open spec fn default_status_insert(project_id: Seq<char>, id: Seq<char>, seed: StatusSeed) -> StatementView {
    statement(
        Sql::InsertDefaultStatus,
        seq![
            SqlValueView::Text(id),
            SqlValueView::Text(project_id),
            SqlValueView::Text(seed.name@),
            SqlValueView::Text(seed.color@),
            SqlValueView::Integer(seed.sort_order as int),
        ],
    )
}

/// The id that an insert binds first.
pub open spec fn inserted_id(s: StatementView) -> Seq<char> {
    match s.params[0] {
        SqlValueView::Text(t) => t,
        _ => Seq::empty(),
    }
}

/// How a status column stores the hidden flag.
pub open spec fn hidden_column_spec(hidden: bool) -> int {
    if hidden { 1 } else { 0 }
}

/// How many statuss making sure a project has statuss inserts, given how many it
/// has: none when it has any, else one per default status.
pub open spec fn seeded_status_count(existing_count: int) -> nat {
    if existing_count > 0 {
        0
    } else {
        default_statuses().len()
    }
}

/// The statement that counts the statuses of a project.
pub fn count_statuses(project_id: &String) -> (r: Statement)
    ensures
        r@ == statement(Sql::CountStatuses, seq![SqlValueView::Text(project_id@)]),
{
    keyed(Sql::CountStatuses, project_id)
}

/// The inserts of the default statuses into a project, the `j`-th under `ids[j]`.
pub fn insert_default_statuses(project_id: &String, ids: &Vec<String>) -> (r: Vec<Statement>)
    requires
        ids.len() == default_statuses().len(),
    ensures
        r.len() == default_statuses().len(),
        forall|j: int|
            0 <= j < r.len() ==> #[trigger] r@[j]@ == default_status_insert(
                project_id@,
                ids@[j]@,
                default_statuses()[j],
            ),
{
    let seeds = default_status_seeds();
    let mut out: Vec<Statement> = Vec::new();
    let mut i: usize = 0;
    while i < seeds.len()
        invariant
            i <= seeds.len(),
            seeds@ == default_statuses(),
            ids.len() == seeds.len(),
            out.len() == i,
            forall|j: int|
                0 <= j < i ==> #[trigger] out@[j]@ == default_status_insert(
                    project_id@,
                    ids@[j]@,
                    seeds@[j],
                ),
        decreases seeds.len() - i,
    {
        let seed = seeds[i];
        let params = vec![
            text_value(&ids[i]),
            text_value(project_id),
            str_value(seed.name),
            str_value(seed.color),
            SqlValue::Integer(seed.sort_order as i64),
        ];
        proof {
            assert(params@.map_values(|v: SqlValue| v@) =~= default_status_insert(
                project_id@,
                ids@[i as int]@,
                seed,
            ).params);
        }
        out.push(Statement::new(Sql::InsertDefaultStatus, params));
        i += 1;
    }
    out
}

/// What making sure a project has statuses inserts, given how many it has:
/// nothing when it has any, else the default statuses, each under a fresh id.
pub fn ensure_default_statuses(project_id: &String, existing_count: i64) -> (r: Vec<Statement>)
    ensures
        r.len() == seeded_status_count(existing_count as int),
        existing_count <= 0 ==> forall|j: int|
            0 <= j < r.len() ==> #[trigger] r@[j]@ == default_status_insert(
                project_id@,
                inserted_id(r@[j]@),
                default_statuses()[j],
            ) && is_uuid_v4_text(inserted_id(r@[j]@)),
{
    if existing_count > 0 {
        return Vec::new();
    }
    let mut ids: Vec<String> = Vec::new();
    let n: usize = default_status_seeds().len();
    while ids.len() < n
        invariant
            n == default_statuses().len(),
            ids.len() <= n,
            forall|j: int| 0 <= j < ids.len() ==> is_uuid_v4_text(#[trigger] ids@[j]@),
        decreases n - ids.len(),
    {
        ids.push(new_id());
    }
    let r = insert_default_statuses(project_id, &ids);
    assert forall|j: int| 0 <= j < r.len() implies inserted_id(#[trigger] r@[j]@) == ids@[j]@ by {
        assert(r@[j]@.params[0] == SqlValueView::Text(ids@[j]@));
    }
    r
}

/// The statement that lists a project's statuses by sort order.
pub fn statuses_of_project(project_id: &String) -> (r: Statement)
    ensures
        r@ == statement(Sql::StatusesOfProject, seq![SqlValueView::Text(project_id@)]),
{
    keyed(Sql::StatusesOfProject, project_id)
}

/// The statement that reads a status.
pub fn status_by_id(id: &String) -> (r: Statement)
    ensures
        r@ == statement(Sql::StatusById, seq![SqlValueView::Text(id@)]),
{
    keyed(Sql::StatusById, id)
}

/// The statement that deletes a status.
pub fn delete_status(id: &String) -> (r: Statement)
    ensures
        r@ == statement(Sql::DeleteStatus, seq![SqlValueView::Text(id@)]),
{
    keyed(Sql::DeleteStatus, id)
}

/// The insert of a new status: the request's colour or the default colour,
/// its sort order or 0, not hidden, created at `now`.
pub open spec fn status_insert(req: CreateStatus, id: Seq<char>, now: Seq<char>) -> StatementView {
    statement(
        Sql::InsertStatus,
        seq![
            SqlValueView::Text(id),
            SqlValueView::Text(req.project_id@),
            SqlValueView::Text(req.name@),
            match req.color {
                Some(c) => SqlValueView::Text(c@),
                None => SqlValueView::Text(DEFAULT_COLOR@),
            },
            SqlValueView::Integer(
                match req.sort_order {
                    Some(s) => s as int,
                    None => 0,
                },
            ),
            SqlValueView::Text(now),
        ],
    )
}

/// Creating a status under the given id at the given time.
pub fn create_status_with(req: &CreateStatus, id: String, now: &String) -> (r: Creation)
    ensures
        r.id@ == id@,
        r.insert@ == status_insert(*req, id@, now@),
        r.fetch@ == statement(Sql::StatusById, seq![SqlValueView::Text(id@)]),
{
    let color = match &req.color {
        Some(c) => text_value(c),
        None => str_value(DEFAULT_COLOR),
    };
    let sort_order: i32 = match req.sort_order {
        Some(s) => s,
        None => 0,
    };
    let params = vec![
        text_value(&id),
        text_value(&req.project_id),
        text_value(&req.name),
        color,
        SqlValue::Integer(sort_order as i64),
        text_value(now),
    ];
    proof {
        assert(params@.map_values(|v: SqlValue| v@) =~= status_insert(*req, id@, now@).params);
    }
    let insert = Statement::new(Sql::InsertStatus, params);
    let fetch = status_by_id(&id);
    Creation { id, insert, fetch }
}

/// Creating a status: a fresh id, the current time, and
/// [`create_status_with`] on them.
pub fn create_status(req: &CreateStatus) -> (r: Creation)
    ensures
        is_uuid_v4_text(r.id@),
        exists|now: Seq<char>| ends_with(now, "+00:00"@) && r.insert@ == status_insert(*req, r.id@, now),
        r.fetch@ == statement(Sql::StatusById, seq![SqlValueView::Text(r.id@)]),
{
    let id = new_id();
    let now = now_timestamp();
    create_status_with(req, id, &now)
}

/// The value stored for a hidden flag: 1 or 0.
pub fn hidden_column(hidden: bool) -> (r: i32)
    ensures
        r == hidden_column_spec(hidden),
{
    if hidden { 1 } else { 0 }
}

/// The change of a status: present fields are written (the hidden flag as
/// 1 or 0), absent ones bound as `NULL` and so left as they are.
pub open spec fn status_update(id: Seq<char>, req: UpdateStatus) -> StatementView {
    statement(
        Sql::UpdateStatus,
        seq![
            opt_text(req.name),
            opt_text(req.color),
            opt_integer(req.sort_order),
            match req.hidden {
                Some(h) => SqlValueView::Integer(hidden_column_spec(h)),
                None => SqlValueView::Null,
            },
            SqlValueView::Text(id),
        ],
    )
}

/// The statement that changes a status: each present field is written,
/// each absent one bound as `NULL` and so left as it is.
pub fn update_status(id: &String, req: &UpdateStatus) -> (r: Statement)
    ensures
        r@ == status_update(id@, *req),
{
    let hidden = match req.hidden {
        Some(h) => SqlValue::Integer(hidden_column(h) as i64),
        None => SqlValue::Null,
    };
    let params = vec![
        opt_text_value(&req.name),
        opt_text_value(&req.color),
        opt_integer_value(req.sort_order),
        hidden,
        text_value(id),
    ];
    proof {
        assert(params@.map_values(|v: SqlValue| v@) =~= status_update(id@, *req).params);
    }
    Statement::new(Sql::UpdateStatus, params)
}

/// A status read from the store: hidden exactly when its hidden column is not 0.
pub fn status_from_row(row: StatusRow) -> (r: LocalStatus)
    ensures
        r.id == row.id,
        r.project_id == row.project_id,
        r.name == row.name,
        r.color == row.color,
        r.sort_order == row.sort_order,
        r.hidden == (row.hidden != 0),
        r.created_at == row.created_at,
{
    LocalStatus {
        id: row.id,
        project_id: row.project_id,
        name: row.name,
        color: row.color,
        sort_order: row.sort_order,
        hidden: row.hidden != 0,
        created_at: row.created_at,
    }
}

/// A hidden flag written to a status column reads back unchanged.
pub proof fn lemma_hidden_flag_round_trip(hidden: bool)
    ensures
        (hidden_column_spec(hidden) != 0) == hidden,
{
}

} // verus!

//! Issues: numbering and creating them, listing, changing, moving in bulk
//! and deleting them.
use vstd::prelude::*;
use crate::decimal::{lemma_signed_decimal_injective, push_signed_decimal, signed_decimal};
use crate::defaults::DEFAULT_STATUS_ID;
use crate::ids::{ends_with, is_uuid_v4_text, new_id, now_timestamp};
use crate::model::{BulkIssueUpdate, CreateIssue, Creation, IssueMove, UpdateIssue};
use crate::sql::{
    keyed, opt_real, opt_real_value, opt_text, opt_text_value, statement, str_value, text_value,
    Sql, SqlValue, SqlValueView, Statement, StatementView,
};
use crate::tags::text_or;

verus! {

/// The short id of the issue numbered `n`: `DEV-` and the number.
pub open spec fn simple_id_spec(n: int) -> Seq<char> {
    "DEV-"@ + signed_decimal(n)
}

/// The insert of a new issue numbered `issue_number`: its short id, the
/// request's status or the default status, the request's sort order or the
/// issue number, no parent, dates, metadata or creator, created and updated
/// at `now`.
pub open spec fn issue_insert(req: CreateIssue, issue_number: i32, id: Seq<char>, now: Seq<char>) -> StatementView {
    statement(
        Sql::InsertIssue,
        seq![
            SqlValueView::Text(id),
            SqlValueView::Text(req.project_id@),
            SqlValueView::Integer(issue_number as int),
            SqlValueView::Text(simple_id_spec(issue_number as int)),
            SqlValueView::Text(text_or(req.status_id, DEFAULT_STATUS_ID@)),
            SqlValueView::Text(req.title@),
            opt_text(req.description),
            opt_text(req.priority),
            match req.sort_order {
                Some(b) => SqlValueView::Real(b.bits),
                None => SqlValueView::IntegerAsReal(issue_number as int),
            },
            SqlValueView::Null,
            SqlValueView::Null,
            SqlValueView::Null,
            SqlValueView::Null,
            SqlValueView::Null,
            SqlValueView::Null,
            SqlValueView::Null,
            SqlValueView::Text(now),
        ],
    )
}

/// The change of an issue: present fields are written, absent ones bound as
/// `NULL` and so left as they are; the update time is always written.
pub open spec fn issue_update(id: Seq<char>, req: UpdateIssue, now: Seq<char>) -> StatementView {
    statement(
        Sql::UpdateIssue,
        seq![
            opt_text(req.status_id),
            opt_text(req.title),
            opt_text(req.description),
            opt_text(req.priority),
            opt_real(req.sort_order),
            opt_text(req.completed_at),
            SqlValueView::Text(now),
            SqlValueView::Text(id),
        ],
    )
}

/// Deleting an issue: first its tag attachments, then the issue.
pub open spec fn issue_deletion(id: Seq<char>) -> Seq<StatementView> {
    seq![
        statement(Sql::DeleteIssueTagsOfIssue, seq![SqlValueView::Text(id)]),
        statement(Sql::DeleteIssue, seq![SqlValueView::Text(id)]),
    ]
}

/// Whether an entry of a bulk update is applied: it names an issue by a
/// non-empty id and carries changes.
pub open spec fn move_applies(m: IssueMove) -> bool {
    &&& m.id matches Some(id) && id@.len() > 0
    &&& m.changes is Some
}

/// The statement that applies one entry of a bulk update at `now`.
pub open spec fn issue_move(m: IssueMove, now: Seq<char>) -> StatementView {
    statement(
        Sql::MoveIssue,
        seq![
            opt_text(m.changes.unwrap().status_id),
            opt_real(m.changes.unwrap().sort_order),
            SqlValueView::Text(now),
            SqlValueView::Text(m.id.unwrap()@),
        ],
    )
}

/// The statements of a list of bulk-update entries: one per applied entry,
/// in the order of the list.
pub open spec fn issue_moves(moves: Seq<IssueMove>, now: Seq<char>) -> Seq<StatementView>
    decreases moves.len(),
{
    if moves.len() == 0 {
        Seq::empty()
    } else {
        let earlier = issue_moves(moves.drop_last(), now);
        if move_applies(moves.last()) {
            earlier.push(issue_move(moves.last(), now))
        } else {
            earlier
        }
    }
}

/// The statements of a bulk update: none when it has no list of entries.
pub open spec fn bulk_update(req: BulkIssueUpdate, now: Seq<char>) -> Seq<StatementView> {
    match req.updates {
        Some(u) => issue_moves(u@, now),
        None => Seq::empty(),
    }
}

/// The statement that lists a project's issues by sort order.
pub fn issues_of_project(project_id: &String) -> (r: Statement)
    ensures
        r@ == statement(Sql::IssuesOfProject, seq![SqlValueView::Text(project_id@)]),
{
    keyed(Sql::IssuesOfProject, project_id)
}

/// The statement that gives the number of a project's next issue: one more
/// than its highest issue number, or 1 for its first issue.
pub fn next_issue_number(project_id: &String) -> (r: Statement)
    ensures
        r@ == statement(Sql::NextIssueNumber, seq![SqlValueView::Text(project_id@)]),
{
    keyed(Sql::NextIssueNumber, project_id)
}

/// The statement that reads an issue.
pub fn issue_by_id(id: &String) -> (r: Statement)
    ensures
        r@ == statement(Sql::IssueById, seq![SqlValueView::Text(id@)]),
{
    keyed(Sql::IssueById, id)
}

/// The short id of the issue numbered `n`, such as `DEV-7`.
pub fn simple_id(n: i32) -> (r: String)
    ensures
        r@ == simple_id_spec(n as int),
{
    let mut s = "DEV-".to_string();
    push_signed_decimal(&mut s, n as i64);
    s
}

/// Creating an issue numbered `issue_number` under the given id at the given time.
pub fn create_issue_with(req: &CreateIssue, issue_number: i32, id: String, now: &String) -> (r: Creation)
    ensures
        r.id@ == id@,
        r.insert@ == issue_insert(*req, issue_number, id@, now@),
        r.fetch@ == statement(Sql::IssueById, seq![SqlValueView::Text(id@)]),
{
    let status = match &req.status_id {
        Some(s) => text_value(s),
        None => str_value(DEFAULT_STATUS_ID),
    };
    let sort_order = match req.sort_order {
        Some(b) => SqlValue::Real(b),
        None => SqlValue::IntegerAsReal(issue_number as i64),
    };
    let short_id = simple_id(issue_number);
    let params = vec![
        text_value(&id),
        text_value(&req.project_id),
        SqlValue::Integer(issue_number as i64),
        SqlValue::Text(short_id),
        status,
        text_value(&req.title),
        opt_text_value(&req.description),
        opt_text_value(&req.priority),
        sort_order,
        SqlValue::Null,
        SqlValue::Null,
        SqlValue::Null,
        SqlValue::Null,
        SqlValue::Null,
        SqlValue::Null,
        SqlValue::Null,
        text_value(now),
    ];
    assert(params@.map_values(|v: SqlValue| v@) =~= issue_insert(*req, issue_number, id@, now@).params);
    let insert = Statement::new(Sql::InsertIssue, params);
    let fetch = issue_by_id(&id);
    Creation { id, insert, fetch }
}

/// Creating an issue numbered `issue_number` (the number that
/// [`next_issue_number`] gave): a fresh id, the current time, and
/// [`create_issue_with`] on them.
pub fn create_issue(req: &CreateIssue, issue_number: i32) -> (r: Creation)
    ensures
        is_uuid_v4_text(r.id@),
        exists|now: Seq<char>|
            ends_with(now, "+00:00"@) && r.insert@ == issue_insert(*req, issue_number, r.id@, now),
        r.fetch@ == statement(Sql::IssueById, seq![SqlValueView::Text(r.id@)]),
{
    let id = new_id();
    let now = now_timestamp();
    create_issue_with(req, issue_number, id, &now)
}

/// The statement that changes an issue at the given time.
pub fn update_issue_at(id: &String, req: &UpdateIssue, now: &String) -> (r: Statement)
    ensures
        r@ == issue_update(id@, *req, now@),
{
    let params = vec![
        opt_text_value(&req.status_id),
        opt_text_value(&req.title),
        opt_text_value(&req.description),
        opt_text_value(&req.priority),
        opt_real_value(req.sort_order),
        opt_text_value(&req.completed_at),
        text_value(now),
        text_value(id),
    ];
    assert(params@.map_values(|v: SqlValue| v@) =~= issue_update(id@, *req, now@).params);
    Statement::new(Sql::UpdateIssue, params)
}

/// The statement that changes an issue, at the current time.
pub fn update_issue(id: &String, req: &UpdateIssue) -> (r: Statement)
    ensures
        exists|now: Seq<char>| ends_with(now, "+00:00"@) && r@ == issue_update(id@, *req, now),
{
    let now = now_timestamp();
    update_issue_at(id, req, &now)
}

/// The statements that delete an issue and its tag attachments.
pub fn delete_issue(id: &String) -> (r: Vec<Statement>)
    ensures
        r@.map_values(|s: Statement| s@) == issue_deletion(id@),
{
    let r = vec![keyed(Sql::DeleteIssueTagsOfIssue, id), keyed(Sql::DeleteIssue, id)];
    assert(r@.map_values(|s: Statement| s@) =~= issue_deletion(id@));
    r
}

/// The statements of a bulk update applied at the given time.
pub fn bulk_update_issues_at(req: &BulkIssueUpdate, now: &String) -> (r: Vec<Statement>)
    ensures
        r@.map_values(|s: Statement| s@) == bulk_update(*req, now@),
{
    let mut out: Vec<Statement> = Vec::new();
    match &req.updates {
        None => {
            assert(out@.map_values(|s: Statement| s@) =~= Seq::<StatementView>::empty());
        },
        Some(updates) => {
            let mut i: usize = 0;
            assert(updates@.take(0) =~= Seq::<IssueMove>::empty());
            assert(out@.map_values(|s: Statement| s@) =~= Seq::<StatementView>::empty());
            while i < updates.len()
                invariant
                    i <= updates.len(),
                    out@.map_values(|s: Statement| s@) == issue_moves(updates@.take(i as int), now@),
                decreases updates.len() - i,
            {
                let m = &updates[i];
                let ghost before = out@;
                assert(updates@.take(i + 1).drop_last() =~= updates@.take(i as int));
                assert(updates@.take(i + 1).last() == updates@[i as int]);
                match (&m.id, &m.changes) {
                    (Some(id), Some(changes)) => {
                        if !id.as_str().is_empty() {
                            let params = vec![
                                opt_text_value(&changes.status_id),
                                opt_real_value(changes.sort_order),
                                text_value(now),
                                text_value(id),
                            ];
                            assert(params@.map_values(|v: SqlValue| v@) =~= issue_move(*m, now@).params);
                            out.push(Statement::new(Sql::MoveIssue, params));
                            assert(out@.map_values(|s: Statement| s@) =~= before.map_values(
                                |s: Statement| s@,
                            ).push(issue_move(*m, now@)));
                        }
                    },
                    _ => {},
                }
                i += 1;
            }
            assert(updates@.take(updates.len() as int) =~= updates@);
        },
    }
    out
}

/// The statements of a bulk update, applied at the current time.
pub fn bulk_update_issues(req: &BulkIssueUpdate) -> (r: Vec<Statement>)
    ensures
        exists|now: Seq<char>|
            ends_with(now, "+00:00"@) && r@.map_values(|s: Statement| s@) == bulk_update(*req, now),
{
    let now = now_timestamp();
    bulk_update_issues_at(req, &now)
}

/// Different issue numbers give different short ids.
pub proof fn lemma_simple_id_injective(a: int, b: int)
    ensures
        simple_id_spec(a) == simple_id_spec(b) ==> a == b,
{
    if simple_id_spec(a) == simple_id_spec(b) {
        reveal_strlit("DEV-");
        assert(simple_id_spec(a).subrange(4, simple_id_spec(a).len() as int) =~= signed_decimal(a));
        assert(simple_id_spec(b).subrange(4, simple_id_spec(b).len() as int) =~= signed_decimal(b));
        lemma_signed_decimal_injective(a, b);
    }
}

} // verus!

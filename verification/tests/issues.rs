use local_board::defaults::DEFAULT_STATUS_ID;
use local_board::issues::{
    bulk_update_issues, bulk_update_issues_at, create_issue, create_issue_with, delete_issue,
    issue_by_id, issues_of_project, next_issue_number, simple_id, update_issue, update_issue_at,
};
use local_board::model::{BulkIssueUpdate, CreateIssue, IssueMove, IssueMoveChanges, UpdateIssue};
use local_board::sql::{RealBits, Sql, SqlValue};

fn text(s: &str) -> SqlValue {
    SqlValue::Text(s.to_string())
}

fn bits(x: f64) -> RealBits {
    RealBits { bits: x.to_bits() }
}

fn request(sort_order: Option<f64>, status_id: Option<&str>) -> CreateIssue {
    CreateIssue {
        project_id: "p1".to_string(),
        status_id: status_id.map(|s| s.to_string()),
        title: "Fix it".to_string(),
        description: Some("details".to_string()),
        priority: None,
        sort_order: sort_order.map(bits),
    }
}

fn entry(id: Option<&str>, changes: Option<(Option<&str>, Option<f64>)>) -> IssueMove {
    IssueMove {
        id: id.map(|s| s.to_string()),
        changes: changes.map(|(s, o)| IssueMoveChanges { status_id: s.map(|x| x.to_string()), sort_order: o.map(bits) }),
    }
}

#[test]
fn simple_ids_are_dev_and_the_number() {
    assert_eq!(simple_id(1), "DEV-1");
    assert_eq!(simple_id(42), "DEV-42");
    assert_eq!(simple_id(0), "DEV-0");
    assert_eq!(simple_id(1000), "DEV-1000");
    assert_eq!(simple_id(-7), "DEV--7");
    assert_eq!(simple_id(i32::MAX), format!("DEV-{}", i32::MAX));
    assert_eq!(simple_id(i32::MIN), format!("DEV-{}", i32::MIN));
}

#[test]
fn distinct_numbers_give_distinct_simple_ids() {
    let ids: Vec<String> = (-20..200).map(simple_id).collect();
    let mut sorted = ids.clone();
    sorted.sort();
    sorted.dedup();
    assert_eq!(sorted.len(), ids.len());
}

#[test]
fn created_issue_defaults_sort_order_to_its_number() {
    let c = create_issue_with(&request(None, None), 7, "i1".to_string(), &"t0".to_string());
    assert_eq!(c.insert.sql(), Sql::InsertIssue);
    let mut expected = vec![
        text("i1"),
        text("p1"),
        SqlValue::Integer(7),
        text("DEV-7"),
        text(DEFAULT_STATUS_ID),
        text("Fix it"),
        text("details"),
        SqlValue::Null,
        SqlValue::IntegerAsReal(7),
    ];
    expected.extend((0..7).map(|_| SqlValue::Null));
    expected.push(text("t0"));
    assert_eq!(c.insert.params(), &expected);
    assert_eq!(c.fetch.sql(), Sql::IssueById);
    assert_eq!(c.fetch.params(), &vec![text("i1")]);
    assert_eq!(DEFAULT_STATUS_ID, "00000000-0000-0000-0000-000000000010");
}

#[test]
fn created_issue_keeps_given_sort_order_and_status() {
    let c = create_issue(&request(Some(2.5), Some("s9")), 3);
    assert_eq!(c.id.len(), 36);
    assert_eq!(c.insert.params()[0], text(&c.id));
    assert_eq!(c.insert.params()[3], text("DEV-3"));
    assert_eq!(c.insert.params()[4], text("s9"));
    assert_eq!(c.insert.params()[8], SqlValue::Real(bits(2.5)));
    match &c.insert.params()[16] {
        SqlValue::Text(now) => assert!(now.ends_with("+00:00")),
        other => panic!("unexpected {:?}", other),
    }
}

#[test]
fn issue_update_binds_absent_fields_as_null() {
    let req = UpdateIssue {
        status_id: Some("s2".to_string()),
        title: None,
        description: None,
        priority: Some("high".to_string()),
        sort_order: Some(bits(1.0)),
        completed_at: None,
    };
    let s = update_issue_at(&"i1".to_string(), &req, &"t1".to_string());
    assert_eq!(s.sql(), Sql::UpdateIssue);
    assert_eq!(
        s.params(),
        &vec![
            text("s2"),
            SqlValue::Null,
            SqlValue::Null,
            text("high"),
            SqlValue::Real(bits(1.0)),
            SqlValue::Null,
            text("t1"),
            text("i1")
        ]
    );
    let now_stamped = update_issue(&"i1".to_string(), &req);
    assert_eq!(now_stamped.params()[7], text("i1"));
}

#[test]
fn issue_deletion_removes_attachments_first() {
    let r = delete_issue(&"i1".to_string());
    assert_eq!(r.len(), 2);
    assert_eq!(r[0].sql(), Sql::DeleteIssueTagsOfIssue);
    assert_eq!(r[1].sql(), Sql::DeleteIssue);
    assert_eq!(r[1].params(), &vec![text("i1")]);
}

#[test]
fn bulk_update_applies_entries_with_id_and_changes() {
    let req = BulkIssueUpdate {
        updates: Some(vec![
            entry(Some("a"), Some((Some("s1"), None))),
            entry(Some(""), Some((Some("s2"), None))),
            entry(None, Some((None, Some(4.0)))),
            entry(Some("b"), None),
            entry(Some("c"), Some((None, Some(4.0)))),
            entry(Some("d"), Some((None, None))),
        ]),
    };
    let r = bulk_update_issues_at(&req, &"t2".to_string());
    assert_eq!(r.len(), 3);
    assert!(r.iter().all(|s| s.sql() == Sql::MoveIssue));
    assert_eq!(r[0].params(), &vec![text("s1"), SqlValue::Null, text("t2"), text("a")]);
    assert_eq!(r[1].params(), &vec![SqlValue::Null, SqlValue::Real(bits(4.0)), text("t2"), text("c")]);
    assert_eq!(r[2].params(), &vec![SqlValue::Null, SqlValue::Null, text("t2"), text("d")]);
}

#[test]
fn bulk_update_without_list_does_nothing() {
    assert!(bulk_update_issues(&BulkIssueUpdate { updates: None }).is_empty());
    assert!(bulk_update_issues(&BulkIssueUpdate { updates: Some(vec![]) }).is_empty());
    let one = bulk_update_issues(&BulkIssueUpdate { updates: Some(vec![entry(Some("z"), Some((None, None)))]) });
    match &one[0].params()[2] {
        SqlValue::Text(now) => assert!(now.ends_with("+00:00")),
        other => panic!("unexpected {:?}", other),
    }
}

#[test]
fn issue_statements_are_keyed() {
    let id = "p".to_string();
    assert_eq!(issues_of_project(&id).sql(), Sql::IssuesOfProject);
    assert_eq!(next_issue_number(&id).sql(), Sql::NextIssueNumber);
    assert_eq!(next_issue_number(&id).params(), &vec![text("p")]);
    assert_eq!(issue_by_id(&id).sql(), Sql::IssueById);
    assert!(Sql::NextIssueNumber.text().starts_with("SELECT COALESCE(MAX(issue_number), 0) + 1"));
    assert_eq!(Sql::InsertIssue.text().matches("?17").count(), 2);
}

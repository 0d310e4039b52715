use local_board::defaults::default_status_seeds;
use local_board::model::{CreateStatus, StatusRow, UpdateStatus};
use local_board::sql::{Sql, SqlValue};
use local_board::statuses::{
    count_statuses, create_status, create_status_with, delete_status, ensure_default_statuses,
    hidden_column, insert_default_statuses, status_by_id, status_from_row, statuses_of_project,
    update_status,
};

fn text(s: &str) -> SqlValue {
    SqlValue::Text(s.to_string())
}

fn row(hidden: i32) -> StatusRow {
    StatusRow {
        id: "s1".to_string(),
        project_id: "p1".to_string(),
        name: "Todo".to_string(),
        color: "#fff".to_string(),
        sort_order: 2,
        hidden,
        created_at: "t0".to_string(),
    }
}

#[test]
fn default_statuses_are_the_four_columns() {
    let seeds = default_status_seeds();
    let names: Vec<&str> = seeds.iter().map(|s| s.name).collect();
    assert_eq!(names, vec!["Backlog", "In Progress", "Review", "Done"]);
    let colors: Vec<&str> = seeds.iter().map(|s| s.color).collect();
    assert_eq!(colors, vec!["#6b7280", "#3b82f6", "#f59e0b", "#22c55e"]);
    let orders: Vec<i32> = seeds.iter().map(|s| s.sort_order).collect();
    assert_eq!(orders, vec![0, 1, 2, 3]);
}

#[test]
fn default_status_inserts_bind_the_given_ids() {
    let ids: Vec<String> = (0..4).map(|i| format!("id{}", i)).collect();
    let r = insert_default_statuses(&"p1".to_string(), &ids);
    assert_eq!(r.len(), 4);
    assert_eq!(r[1].sql(), Sql::InsertDefaultStatus);
    assert_eq!(
        r[1].params(),
        &vec![text("id1"), text("p1"), text("In Progress"), text("#3b82f6"), SqlValue::Integer(1)]
    );
    assert_eq!(
        r[3].params(),
        &vec![text("id3"), text("p1"), text("Done"), text("#22c55e"), SqlValue::Integer(3)]
    );
}

#[test]
fn ensure_default_statuses_inserts_only_into_an_empty_project() {
    assert!(ensure_default_statuses(&"p1".to_string(), 1).is_empty());
    assert!(ensure_default_statuses(&"p1".to_string(), 7).is_empty());
    let r = ensure_default_statuses(&"p1".to_string(), 0);
    assert_eq!(r.len(), 4);
    let mut ids = Vec::new();
    for (s, name) in r.iter().zip(["Backlog", "In Progress", "Review", "Done"]) {
        assert_eq!(s.params()[1], text("p1"));
        assert_eq!(s.params()[2], text(name));
        match &s.params()[0] {
            SqlValue::Text(id) => {
                assert_eq!(id.len(), 36);
                ids.push(id.clone());
            }
            other => panic!("unexpected {:?}", other),
        }
    }
    ids.sort();
    ids.dedup();
    assert_eq!(ids.len(), 4);
}

#[test]
fn seeding_twice_inserts_defaults_once() {
    let first = ensure_default_statuses(&"p1".to_string(), 0);
    let second = ensure_default_statuses(&"p1".to_string(), first.len() as i64);
    assert_eq!(first.len(), 4);
    assert!(second.is_empty());
}

#[test]
fn created_status_gets_defaults() {
    let req = CreateStatus { project_id: "p1".to_string(), name: "Todo".to_string(), color: None, sort_order: None };
    let c = create_status_with(&req, "s1".to_string(), &"t0".to_string());
    assert_eq!(c.insert.sql(), Sql::InsertStatus);
    assert_eq!(
        c.insert.params(),
        &vec![text("s1"), text("p1"), text("Todo"), text("#6b7280"), SqlValue::Integer(0), text("t0")]
    );
    assert_eq!(c.fetch.sql(), Sql::StatusById);
    assert_eq!(c.fetch.params(), &vec![text("s1")]);
}

#[test]
fn created_status_keeps_given_values() {
    let req = CreateStatus {
        project_id: "p1".to_string(),
        name: "Todo".to_string(),
        color: Some("#123456".to_string()),
        sort_order: Some(9),
    };
    let c = create_status(&req);
    assert_eq!(c.id.len(), 36);
    assert_eq!(c.insert.params()[0], text(&c.id));
    assert_eq!(c.insert.params()[3], text("#123456"));
    assert_eq!(c.insert.params()[4], SqlValue::Integer(9));
}

#[test]
fn status_update_binds_hidden_as_integer() {
    let id = "s1".to_string();
    let hide = UpdateStatus { name: None, color: None, sort_order: None, hidden: Some(true) };
    let s = update_status(&id, &hide);
    assert_eq!(s.sql(), Sql::UpdateStatus);
    assert_eq!(s.params(), &vec![SqlValue::Null, SqlValue::Null, SqlValue::Null, SqlValue::Integer(1), text("s1")]);
    let show = UpdateStatus { name: Some("N".to_string()), color: None, sort_order: Some(3), hidden: Some(false) };
    assert_eq!(
        update_status(&id, &show).params(),
        &vec![text("N"), SqlValue::Null, SqlValue::Integer(3), SqlValue::Integer(0), text("s1")]
    );
    let keep = UpdateStatus { name: None, color: None, sort_order: None, hidden: None };
    assert_eq!(update_status(&id, &keep).params()[3], SqlValue::Null);
}

#[test]
fn status_rows_read_hidden_as_nonzero() {
    assert!(!status_from_row(row(0)).hidden);
    assert!(status_from_row(row(1)).hidden);
    assert!(status_from_row(row(5)).hidden);
    let s = status_from_row(row(0));
    assert_eq!(s.id, "s1");
    assert_eq!(s.project_id, "p1");
    assert_eq!(s.name, "Todo");
    assert_eq!(s.sort_order, 2);
    assert_eq!(s.created_at, "t0");
}

#[test]
fn hidden_flag_round_trips() {
    for h in [false, true] {
        assert_eq!(status_from_row(row(hidden_column(h))).hidden, h);
    }
    assert_eq!(hidden_column(true), 1);
    assert_eq!(hidden_column(false), 0);
}

#[test]
fn status_statements_are_keyed() {
    let id = "x".to_string();
    assert_eq!(count_statuses(&id).sql(), Sql::CountStatuses);
    assert_eq!(statuses_of_project(&id).sql(), Sql::StatusesOfProject);
    assert_eq!(status_by_id(&id).sql(), Sql::StatusById);
    assert_eq!(delete_status(&id).sql(), Sql::DeleteStatus);
    assert_eq!(delete_status(&id).params(), &vec![text("x")]);
    assert!(Sql::StatusesOfProject.text().contains("CAST(hidden AS INTEGER)"));
}

use local_board::defaults::default_tag_seeds;
use local_board::model::{CreateIssueTag, CreateTag};
use local_board::sql::{Sql, SqlValue};
use local_board::tags::{
    count_tags, create_issue_tag, create_issue_tag_with, create_tag, create_tag_with,
    delete_issue_tag, ensure_default_tags, insert_default_tags, issue_tag_by_id,
    issue_tags_of_issue, issue_tags_of_project, tag_by_id, tags_of_project,
};

fn text(s: &str) -> SqlValue {
    SqlValue::Text(s.to_string())
}

#[test]
fn default_tags_are_bug_feature_enhancement() {
    let seeds = default_tag_seeds();
    let pairs: Vec<(&str, &str)> = seeds.iter().map(|s| (s.name, s.color)).collect();
    assert_eq!(pairs, vec![("Bug", "#ef4444"), ("Feature", "#22c55e"), ("Enhancement", "#8b5cf6")]);
}

#[test]
fn default_tag_inserts_bind_the_given_ids() {
    let ids = vec!["a".to_string(), "b".to_string(), "c".to_string()];
    let r = insert_default_tags(&"p1".to_string(), &ids);
    assert_eq!(r.len(), 3);
    assert_eq!(r[2].sql(), Sql::InsertTag);
    assert_eq!(r[2].params(), &vec![text("c"), text("p1"), text("Enhancement"), text("#8b5cf6")]);
}

#[test]
fn ensure_default_tags_inserts_only_into_an_empty_project() {
    assert!(ensure_default_tags(&"p1".to_string(), 3).is_empty());
    let r = ensure_default_tags(&"p1".to_string(), 0);
    assert_eq!(r.len(), 3);
    assert_eq!(r[0].params()[2], text("Bug"));
    let again = ensure_default_tags(&"p1".to_string(), r.len() as i64);
    assert!(again.is_empty());
}

#[test]
fn created_tag_fills_missing_fields() {
    let req = CreateTag { project_id: None, name: None, color: None };
    let c = create_tag_with(&req, "t1".to_string());
    assert_eq!(c.insert.sql(), Sql::InsertTag);
    assert_eq!(c.insert.params(), &vec![text("t1"), text(""), text(""), text("#6b7280")]);
    assert_eq!(c.fetch.sql(), Sql::TagById);
    assert_eq!(c.fetch.params(), &vec![text("t1")]);
}

#[test]
fn created_tag_keeps_given_fields() {
    let req = CreateTag { project_id: Some("p1".to_string()), name: Some("Urgent".to_string()), color: Some("#ff0000".to_string()) };
    let c = create_tag(&req);
    assert_eq!(c.id.len(), 36);
    assert_eq!(c.insert.params(), &vec![text(&c.id), text("p1"), text("Urgent"), text("#ff0000")]);
}

#[test]
fn issue_tag_attachment_fills_missing_ids() {
    let req = CreateIssueTag { issue_id: Some("i1".to_string()), tag_id: None };
    let c = create_issue_tag_with(&req, "x".to_string());
    assert_eq!(c.insert.sql(), Sql::InsertIssueTag);
    assert_eq!(c.insert.params(), &vec![text("x"), text("i1"), text("")]);
    assert_eq!(c.fetch.sql(), Sql::IssueTagById);
    let d = create_issue_tag(&req);
    assert_ne!(d.id, c.id);
    assert_eq!(d.fetch.params(), &vec![text(&d.id)]);
}

#[test]
fn tag_statements_are_keyed() {
    let id = "k".to_string();
    assert_eq!(count_tags(&id).sql(), Sql::CountTags);
    assert_eq!(tags_of_project(&id).sql(), Sql::TagsOfProject);
    assert_eq!(tag_by_id(&id).params(), &vec![text("k")]);
    assert_eq!(issue_tags_of_issue(&id).sql(), Sql::IssueTagsOfIssue);
    assert_eq!(issue_tags_of_project(&id).sql(), Sql::IssueTagsOfProject);
    assert_eq!(issue_tag_by_id(&id).sql(), Sql::IssueTagById);
    assert_eq!(delete_issue_tag(&id).sql(), Sql::DeleteIssueTag);
    assert!(Sql::IssueTagsOfProject.text().contains("JOIN local_issues"));
}

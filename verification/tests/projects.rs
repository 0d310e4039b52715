use local_board::defaults::{DEFAULT_COLOR, SEED_ORGANIZATION_ID, SEED_PROJECT_COLOR, SEED_PROJECT_ID, SEED_PROJECT_NAME};
use local_board::model::{CreateProject, UpdateProject};
use local_board::projects::{
    count_projects, count_projects_with_id, create_project, create_project_with, delete_project,
    needs_seed, organization_filter, project_by_id, projects_in_organization,
    seed_project_insert, seed_project_insert_at, update_project, update_project_at,
};
use local_board::sql::{Sql, SqlValue, Statement};

fn text(s: &str) -> SqlValue {
    SqlValue::Text(s.to_string())
}

fn is_uuid_v4(s: &str) -> bool {
    let b = s.as_bytes();
    b.len() == 36
        && b.iter().enumerate().all(|(i, c)| {
            if i == 8 || i == 13 || i == 18 || i == 23 {
                *c == b'-'
            } else {
                c.is_ascii_digit() || (b'a'..=b'f').contains(c)
            }
        })
        && b[14] == b'4'
}

fn assert_statement(s: &Statement, sql: Sql, params: Vec<SqlValue>) {
    assert_eq!(s.sql(), sql);
    assert_eq!(s.params(), &params);
}

#[test]
fn organization_filter_defaults_to_empty() {
    assert_eq!(organization_filter(None), "");
    assert_eq!(organization_filter(Some("org-1".to_string())), "org-1");
}

#[test]
fn seeding_happens_only_for_an_empty_project_table() {
    assert!(needs_seed(0));
    assert!(!needs_seed(1));
}

#[test]
fn count_statements_bind_what_they_count_by() {
    assert_statement(&count_projects(), Sql::CountProjects, vec![]);
    assert_statement(&count_projects_with_id(&"p1".to_string()), Sql::CountProjectsWithId, vec![text("p1")]);
    assert_eq!(Sql::CountProjects.text(), "SELECT COUNT(*) FROM local_projects");
}

#[test]
fn seed_project_insert_uses_the_seed_values() {
    let s = seed_project_insert_at(&"p1".to_string(), &"t0".to_string());
    assert_statement(
        &s,
        Sql::SeedProject,
        vec![text("p1"), text(SEED_ORGANIZATION_ID), text(SEED_PROJECT_NAME), text(SEED_PROJECT_COLOR), text("t0")],
    );
    assert_eq!(SEED_ORGANIZATION_ID, "00000000-0000-0000-0000-000000000001");
    assert_eq!(SEED_PROJECT_ID, "00000000-0000-0000-0000-000000000002");
    assert_eq!(SEED_PROJECT_NAME, "Local Dev Project");
    assert_eq!(SEED_PROJECT_COLOR, "#f59e0b");
    assert!(Sql::SeedProject.text().starts_with("INSERT OR IGNORE INTO local_projects"));
}

#[test]
fn seed_project_insert_is_stamped_now_in_utc() {
    let s = seed_project_insert(&"p1".to_string());
    match &s.params()[4] {
        SqlValue::Text(now) => assert!(now.ends_with("+00:00")),
        other => panic!("unexpected {:?}", other),
    }
}

#[test]
fn created_project_gets_default_color() {
    let req = CreateProject { organization_id: "org".to_string(), name: "Board".to_string(), color: None };
    let c = create_project_with(&req, "id-1".to_string(), &"t0".to_string());
    assert_eq!(c.id, "id-1");
    assert_statement(&c.insert, Sql::InsertProject, vec![text("id-1"), text("org"), text("Board"), text("#6b7280"), text("t0")]);
    assert_statement(&c.fetch, Sql::ProjectById, vec![text("id-1")]);
    assert_eq!(DEFAULT_COLOR, "#6b7280");
}

#[test]
fn created_project_keeps_given_color() {
    let req = CreateProject { organization_id: "org".to_string(), name: "Board".to_string(), color: Some("#000000".to_string()) };
    let c = create_project_with(&req, "id-1".to_string(), &"t0".to_string());
    assert_eq!(c.insert.params()[3], text("#000000"));
}

#[test]
fn created_projects_get_fresh_uuids() {
    let req = CreateProject { organization_id: "org".to_string(), name: "Board".to_string(), color: None };
    let a = create_project(&req);
    let b = create_project(&req);
    assert!(is_uuid_v4(&a.id), "{}", a.id);
    assert!(is_uuid_v4(&b.id), "{}", b.id);
    assert_ne!(a.id, b.id);
    assert_eq!(a.insert.params()[0], text(&a.id));
    assert_eq!(a.fetch.params()[0], text(&a.id));
    match &a.insert.params()[4] {
        SqlValue::Text(now) => assert!(now.ends_with("+00:00")),
        other => panic!("unexpected {:?}", other),
    }
}

#[test]
fn project_update_binds_absent_fields_as_null() {
    let req = UpdateProject { name: None, color: Some("#111111".to_string()), sort_order: Some(4) };
    let s = update_project_at(&"p1".to_string(), &req, &"t1".to_string());
    assert_statement(&s, Sql::UpdateProject, vec![SqlValue::Null, text("#111111"), SqlValue::Integer(4), text("t1"), text("p1")]);
    let empty = UpdateProject { name: None, color: None, sort_order: None };
    let s = update_project(&"p1".to_string(), &empty);
    assert_eq!(&s.params()[..3], &[SqlValue::Null, SqlValue::Null, SqlValue::Null]);
    assert_eq!(s.params()[4], text("p1"));
}

#[test]
fn project_deletion_removes_dependents_first() {
    let r = delete_project(&"p1".to_string());
    let sqls: Vec<Sql> = r.iter().map(|s| s.sql()).collect();
    assert_eq!(
        sqls,
        vec![
            Sql::DeleteProjectIssueTags,
            Sql::DeleteProjectIssues,
            Sql::DeleteProjectTags,
            Sql::DeleteProjectStatuses,
            Sql::DeleteProject
        ]
    );
    for s in &r {
        assert_eq!(s.params(), &vec![text("p1")]);
    }
}

#[test]
fn project_reads_are_keyed() {
    assert_statement(&project_by_id(&"p1".to_string()), Sql::ProjectById, vec![text("p1")]);
    assert_statement(&projects_in_organization(&"".to_string()), Sql::ProjectsInOrganization, vec![text("")]);
    assert!(Sql::ProjectsInOrganization.text().ends_with("ORDER BY sort_order"));
}

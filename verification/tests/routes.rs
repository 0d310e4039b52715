use local_board::defaults::SEED_PROJECT_ID;
use local_board::model::{
    BulkIssueUpdate, CreateIssue, CreateIssueTag, CreateProject, CreateStatus, CreateTag, IssueMove,
    IssueMoveChanges, UpdateIssue, UpdateProject, UpdateStatus,
};
use local_board::routes;
use local_board::sql::{RealBits, Sql, SqlValue, Statement};
use local_board::steps::{seed_project, Decision, Step};

fn text(s: &str) -> SqlValue {
    SqlValue::Text(s.to_string())
}

fn sql_of(step: &Step) -> Option<Sql> {
    match step {
        Step::Run(s) | Step::AnswerOne(s) | Step::AnswerAll(s) => Some(s.sql()),
        Step::Decide(_) => None,
    }
}

fn run_stmt(step: &Step) -> &Statement {
    match step {
        Step::Run(s) => s,
        other => panic!("not a run: {:?}", other),
    }
}

fn issue_request(sort_order: Option<f64>) -> CreateIssue {
    CreateIssue {
        project_id: "p1".to_string(),
        status_id: None,
        title: "T".to_string(),
        description: None,
        priority: None,
        sort_order: sort_order.map(|x| RealBits { bits: x.to_bits() }),
    }
}

#[test]
fn ensure_statuses_decision_inserts_defaults_only_when_none() {
    let d = Decision::EnsureStatuses("p1".to_string());
    assert!(!d.reads_i32());
    assert_eq!(d.query().sql(), Sql::CountStatuses);
    assert_eq!(d.query().params(), &vec![text("p1")]);
    let steps = d.resolve(0);
    assert_eq!(steps.len(), 4);
    assert!(steps.iter().all(|s| sql_of(s) == Some(Sql::InsertDefaultStatus)));
    assert_eq!(run_stmt(&steps[0]).params()[2], text("Backlog"));
    assert!(Decision::EnsureStatuses("p1".to_string()).resolve(4).is_empty());
}

#[test]
fn ensure_tags_decision_inserts_defaults_only_when_none() {
    let steps = Decision::EnsureTags("p1".to_string()).resolve(0);
    assert_eq!(steps.len(), 3);
    assert_eq!(run_stmt(&steps[2]).params()[2], text("Enhancement"));
    assert!(Decision::EnsureTags("p1".to_string()).resolve(1).is_empty());
}

#[test]
fn seeding_inserts_the_project_then_makes_sure_of_defaults() {
    let steps = seed_project(&"p9".to_string());
    assert_eq!(steps.len(), 3);
    assert_eq!(run_stmt(&steps[0]).sql(), Sql::SeedProject);
    assert_eq!(run_stmt(&steps[0]).params()[0], text("p9"));
    assert!(matches!(&steps[1], Step::Decide(Decision::EnsureStatuses(p)) if p == "p9"));
    assert!(matches!(&steps[2], Step::Decide(Decision::EnsureTags(p)) if p == "p9"));
}

#[test]
fn project_listing_seeds_only_an_empty_table() {
    let d = Decision::SeedIfNoProjects;
    assert!(d.reads_i32());
    assert_eq!(d.query().sql(), Sql::CountProjects);
    let seeded = Decision::SeedIfNoProjects.resolve(0);
    assert_eq!(run_stmt(&seeded[0]).params()[0], text(SEED_PROJECT_ID));
    assert!(Decision::SeedIfNoProjects.resolve(2).is_empty());
    let steps = routes::list_projects(None);
    assert!(matches!(&steps[0], Step::Decide(Decision::SeedIfNoProjects)));
    match &steps[1] {
        Step::AnswerAll(s) => {
            assert_eq!(s.sql(), Sql::ProjectsInOrganization);
            assert_eq!(s.params(), &vec![text("")]);
        }
        other => panic!("unexpected {:?}", other),
    }
}

#[test]
fn status_listing_seeds_a_missing_project_else_ensures_statuses() {
    let seeded = Decision::SeedOrEnsureStatuses("p1".to_string()).resolve(0);
    assert_eq!(seeded.len(), 3);
    assert_eq!(sql_of(&seeded[0]), Some(Sql::SeedProject));
    let existing = Decision::SeedOrEnsureStatuses("p1".to_string()).resolve(1);
    assert_eq!(existing.len(), 1);
    assert!(matches!(&existing[0], Step::Decide(Decision::EnsureStatuses(p)) if p == "p1"));
    let steps = routes::list_statuses(&"p1".to_string());
    assert!(matches!(&steps[0], Step::Decide(Decision::SeedOrEnsureStatuses(p)) if p == "p1"));
    assert_eq!(sql_of(&steps[1]), Some(Sql::StatusesOfProject));
}

#[test]
fn issue_numbering_inserts_under_the_read_number() {
    let d = Decision::NumberIssue(issue_request(None));
    assert!(d.reads_i32());
    assert_eq!(d.query().sql(), Sql::NextIssueNumber);
    let steps = d.resolve(12);
    assert_eq!(steps.len(), 2);
    let insert = run_stmt(&steps[0]);
    assert_eq!(insert.params()[2], SqlValue::Integer(12));
    assert_eq!(insert.params()[3], text("DEV-12"));
    assert_eq!(insert.params()[8], SqlValue::IntegerAsReal(12));
    match (&insert.params()[0], &steps[1]) {
        (SqlValue::Text(id), Step::AnswerOne(fetch)) => {
            assert_eq!(fetch.sql(), Sql::IssueById);
            assert_eq!(fetch.params(), &vec![text(id)]);
        }
        other => panic!("unexpected {:?}", other),
    }
    let given = Decision::NumberIssue(issue_request(Some(0.5))).resolve(1);
    assert_eq!(run_stmt(&given[0]).params()[8], SqlValue::Real(RealBits { bits: 0.5f64.to_bits() }));
    let steps = routes::create_issue(issue_request(None));
    assert!(matches!(&steps[0], Step::Decide(Decision::NumberIssue(_))));
}

#[test]
fn created_project_is_made_sure_of_defaults_before_read_back() {
    let req = CreateProject { organization_id: "o".to_string(), name: "N".to_string(), color: None };
    let steps = routes::create_project(&req);
    assert_eq!(steps.len(), 4);
    let id = match &run_stmt(&steps[0]).params()[0] {
        SqlValue::Text(id) => id.clone(),
        other => panic!("unexpected {:?}", other),
    };
    assert!(matches!(&steps[1], Step::Decide(Decision::EnsureStatuses(p)) if *p == id));
    assert!(matches!(&steps[2], Step::Decide(Decision::EnsureTags(p)) if *p == id));
    match &steps[3] {
        Step::AnswerOne(s) => assert_eq!(s.params(), &vec![text(&id)]),
        other => panic!("unexpected {:?}", other),
    }
}

#[test]
fn created_status_seeds_its_project_first() {
    let req = CreateStatus { project_id: "p1".to_string(), name: "S".to_string(), color: None, sort_order: None };
    let steps = routes::create_status(&req);
    assert_eq!(steps.len(), 3);
    assert!(matches!(&steps[0], Step::Decide(Decision::SeedIfMissing(p)) if p == "p1"));
    assert_eq!(sql_of(&steps[1]), Some(Sql::InsertStatus));
    assert_eq!(sql_of(&steps[2]), Some(Sql::StatusById));
    assert_eq!(Decision::SeedIfMissing("p1".to_string()).resolve(0).len(), 3);
    assert!(Decision::SeedIfMissing("p1".to_string()).resolve(1).is_empty());
}

#[test]
fn simple_routes_read_or_write_once() {
    let id = "x".to_string();
    let cases: Vec<(Vec<Step>, Vec<Option<Sql>>)> = vec![
        (routes::get_project(&id), vec![Some(Sql::ProjectById)]),
        (routes::list_issues(&id), vec![Some(Sql::IssuesOfProject)]),
        (routes::delete_status(&id), vec![Some(Sql::DeleteStatus)]),
        (routes::list_issue_tags(&id), vec![Some(Sql::IssueTagsOfIssue)]),
        (routes::delete_issue_tag(&id), vec![Some(Sql::DeleteIssueTag)]),
        (routes::list_project_issue_tags(&id), vec![Some(Sql::IssueTagsOfProject)]),
        (routes::delete_issue(&id), vec![Some(Sql::DeleteIssueTagsOfIssue), Some(Sql::DeleteIssue)]),
        (
            routes::delete_project(&id),
            vec![
                Some(Sql::DeleteProjectIssueTags),
                Some(Sql::DeleteProjectIssues),
                Some(Sql::DeleteProjectTags),
                Some(Sql::DeleteProjectStatuses),
                Some(Sql::DeleteProject),
            ],
        ),
        (routes::list_tags(&id), vec![None, Some(Sql::TagsOfProject)]),
        (
            routes::update_project(&id, &UpdateProject { name: None, color: None, sort_order: None }),
            vec![Some(Sql::UpdateProject), Some(Sql::ProjectById)],
        ),
        (
            routes::update_status(&id, &UpdateStatus { name: None, color: None, sort_order: None, hidden: None }),
            vec![Some(Sql::UpdateStatus), Some(Sql::StatusById)],
        ),
        (
            routes::update_issue(
                &id,
                &UpdateIssue { status_id: None, title: None, description: None, priority: None, sort_order: None, completed_at: None },
            ),
            vec![Some(Sql::UpdateIssue), Some(Sql::IssueById)],
        ),
        (
            routes::create_tag(&CreateTag { project_id: None, name: None, color: None }),
            vec![Some(Sql::InsertTag), Some(Sql::TagById)],
        ),
        (
            routes::create_issue_tag(&CreateIssueTag { issue_id: None, tag_id: None }),
            vec![Some(Sql::InsertIssueTag), Some(Sql::IssueTagById)],
        ),
    ];
    for (steps, sqls) in cases {
        assert_eq!(steps.iter().map(sql_of).collect::<Vec<_>>(), sqls);
    }
}

#[test]
fn bulk_route_runs_one_update_per_applied_entry() {
    let req = BulkIssueUpdate {
        updates: Some(vec![
            IssueMove { id: Some("a".to_string()), changes: Some(IssueMoveChanges { status_id: None, sort_order: None }) },
            IssueMove { id: Some("".to_string()), changes: Some(IssueMoveChanges { status_id: None, sort_order: None }) },
        ]),
    };
    let steps = routes::bulk_update_issues(&req);
    assert_eq!(steps.len(), 1);
    assert_eq!(run_stmt(&steps[0]).params()[3], text("a"));
}

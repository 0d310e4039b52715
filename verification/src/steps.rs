//! The steps a route takes against the store. A route is a list of steps run
//! in order; a decision step first reads one number from the store and then
//! stands for the steps that [`Decision::resolve`] gives for that number.
use vstd::prelude::*;
use crate::defaults::{default_statuses, default_tags, SEED_PROJECT_ID};
use crate::ids::{ends_with, is_uuid_v4_text};
use crate::issues::{create_issue, issue_insert, next_issue_number};
use crate::model::CreateIssue;
use crate::projects::{count_projects, count_projects_with_id, needs_seed, seed_project_insert, seed_project_insert_spec};
use crate::sql::{statement, Sql, SqlValueView, Statement, StatementView};
use crate::statuses::{count_statuses, default_status_insert, ensure_default_statuses, inserted_id, seeded_status_count};
use crate::tags::{count_tags, default_tag_insert, ensure_default_tags, seeded_tag_count};

verus! {

/// A choice that a route makes on a number it reads from the store.
#[derive(Debug)]
pub enum Decision {
    /// Count the project's statuses; insert the default statuses where it has none.
    EnsureStatuses(String),
    /// Count the project's tags; insert the default tags where it has none.
    EnsureTags(String),
    /// Count all projects; seed the local development project where there are none.
    SeedIfNoProjects,
    /// Count the projects with this id; seed the project where it is missing.
    SeedIfMissing(String),
    /// Count the projects with this id; seed the project where it is missing,
    /// else make sure of its statuses.
    SeedOrEnsureStatuses(String),
    /// Read the project's next issue number; insert the issue under it and read it back.
    NumberIssue(CreateIssue),
}

/// One step of a route.
#[derive(Debug)]
pub enum Step {
    /// Run a statement that returns no rows.
    Run(Statement),
    /// Answer the request with the first row that the statement returns.
    AnswerOne(Statement),
    /// Answer the request with all rows that the statement returns.
    AnswerAll(Statement),
    /// Read a number and go on as the decision says.
    Decide(Decision),
}

/// A decision, with its texts as characters.
pub enum DecisionView {
    EnsureStatuses(Seq<char>),
    EnsureTags(Seq<char>),
    SeedIfNoProjects,
    SeedIfMissing(Seq<char>),
    SeedOrEnsureStatuses(Seq<char>),
    NumberIssue(CreateIssue),
}

/// A step, with its statement or decision viewed.
pub enum StepView {
    Run(StatementView),
    AnswerOne(StatementView),
    AnswerAll(StatementView),
    Decide(DecisionView),
}

impl View for Decision {
    type V = DecisionView;

    open spec fn view(&self) -> DecisionView {
        match self {
            Decision::EnsureStatuses(p) => DecisionView::EnsureStatuses(p@),
            Decision::EnsureTags(p) => DecisionView::EnsureTags(p@),
            Decision::SeedIfNoProjects => DecisionView::SeedIfNoProjects,
            Decision::SeedIfMissing(p) => DecisionView::SeedIfMissing(p@),
            Decision::SeedOrEnsureStatuses(p) => DecisionView::SeedOrEnsureStatuses(p@),
            Decision::NumberIssue(r) => DecisionView::NumberIssue(*r),
        }
    }
}

impl View for Step {
    type V = StepView;

    open spec fn view(&self) -> StepView {
        match self {
            Step::Run(s) => StepView::Run(s@),
            Step::AnswerOne(s) => StepView::AnswerOne(s@),
            Step::AnswerAll(s) => StepView::AnswerAll(s@),
            Step::Decide(d) => StepView::Decide(d@),
        }
    }
}

/// The views of a list of steps.
pub open spec fn steps_view(steps: Seq<Step>) -> Seq<StepView> {
    steps.map_values(|s: Step| s@)
}

/// The statement whose one number a decision reads.
pub open spec fn decision_query(d: DecisionView) -> StatementView {
    match d {
        DecisionView::EnsureStatuses(p) => statement(Sql::CountStatuses, seq![SqlValueView::Text(p)]),
        DecisionView::EnsureTags(p) => statement(Sql::CountTags, seq![SqlValueView::Text(p)]),
        DecisionView::SeedIfNoProjects => statement(Sql::CountProjects, Seq::empty()),
        DecisionView::SeedIfMissing(p) => statement(Sql::CountProjectsWithId, seq![SqlValueView::Text(p)]),
        DecisionView::SeedOrEnsureStatuses(p) => statement(Sql::CountProjectsWithId, seq![SqlValueView::Text(p)]),
        DecisionView::NumberIssue(r) => statement(Sql::NextIssueNumber, seq![SqlValueView::Text(r.project_id@)]),
    }
}

/// Whether a decision reads its number as a 32-bit integer (else as 64-bit).
pub open spec fn decision_reads_i32(d: DecisionView) -> bool {
    d is SeedIfNoProjects || d is NumberIssue
}

/// Seeding a project created at `now`: insert it where it is missing, then
/// make sure of its statuses and of its tags.
pub open spec fn seeding(project_id: Seq<char>, now: Seq<char>) -> Seq<StepView> {
    seq![
        StepView::Run(seed_project_insert_spec(project_id, now)),
        StepView::Decide(DecisionView::EnsureStatuses(project_id)),
        StepView::Decide(DecisionView::EnsureTags(project_id)),
    ]
}

/// Whether `step` runs the insert of the `j`-th default status under a fresh id.
pub open spec fn runs_default_status_insert(project_id: Seq<char>, step: StepView, j: int) -> bool {
    match step {
        StepView::Run(s) => s == default_status_insert(project_id, inserted_id(s), default_statuses()[j])
            && is_uuid_v4_text(inserted_id(s)),
        _ => false,
    }
}

/// Whether `step` runs the insert of the `j`-th default tag under a fresh id.
pub open spec fn runs_default_tag_insert(project_id: Seq<char>, step: StepView, j: int) -> bool {
    match step {
        StepView::Run(s) => s == default_tag_insert(project_id, inserted_id(s), default_tags()[j])
            && is_uuid_v4_text(inserted_id(s)),
        _ => false,
    }
}

/// The steps that a default-status insert list stands for: one run per
/// default status, each under a fresh id.
pub open spec fn runs_default_statuses(project_id: Seq<char>, count: int, steps: Seq<StepView>) -> bool {
    &&& steps.len() == seeded_status_count(count)
    &&& forall|j: int|
        0 <= j < steps.len() ==> runs_default_status_insert(project_id, #[trigger] steps[j], j)
}

/// The steps that a default-tag insert list stands for: one run per default
/// tag, each under a fresh id.
pub open spec fn runs_default_tags(project_id: Seq<char>, count: int, steps: Seq<StepView>) -> bool {
    &&& steps.len() == seeded_tag_count(count)
    &&& forall|j: int|
        0 <= j < steps.len() ==> runs_default_tag_insert(project_id, #[trigger] steps[j], j)
}

/// Seeding a project at some current time.
pub open spec fn is_seeding(project_id: Seq<char>, steps: Seq<StepView>) -> bool {
    exists|now: Seq<char>| ends_with(now, "+00:00"@) && steps == seeding(project_id, now)
}

/// Whether `steps` are what decision `d` goes on with after reading `count`.
pub open spec fn resolves_to(d: DecisionView, count: int, steps: Seq<StepView>) -> bool {
    match d {
        DecisionView::EnsureStatuses(p) => runs_default_statuses(p, count, steps),
        DecisionView::EnsureTags(p) => runs_default_tags(p, count, steps),
        DecisionView::SeedIfNoProjects => if count == 0 {
            is_seeding(SEED_PROJECT_ID@, steps)
        } else {
            steps.len() == 0
        },
        DecisionView::SeedIfMissing(p) => if count == 0 {
            is_seeding(p, steps)
        } else {
            steps.len() == 0
        },
        DecisionView::SeedOrEnsureStatuses(p) => if count == 0 {
            is_seeding(p, steps)
        } else {
            steps == seq![StepView::Decide(DecisionView::EnsureStatuses(p))]
        },
        DecisionView::NumberIssue(r) => exists|id: Seq<char>, now: Seq<char>|
            is_uuid_v4_text(id) && ends_with(now, "+00:00"@) && steps == seq![
                StepView::Run(issue_insert(r, count as i32, id, now)),
                StepView::AnswerOne(statement(Sql::IssueById, seq![SqlValueView::Text(id)])),
            ],
    }
}

/// Each statement becomes a run step.
pub(crate) fn runs(stmts: Vec<Statement>) -> (r: Vec<Step>)
    ensures
        r.len() == stmts.len(),
        forall|j: int| 0 <= j < r.len() ==> #[trigger] r@[j]@ == StepView::Run(stmts@[j]@),
{
    let mut out: Vec<Step> = Vec::new();
    let mut rest = stmts;
    let ghost all = rest@;
    // Reverse first so that popping yields the statements in order.
    let mut reversed: Vec<Statement> = Vec::new();
    while rest.len() > 0
        invariant
            reversed.len() + rest.len() == all.len(),
            forall|j: int| 0 <= j < rest.len() ==> #[trigger] rest@[j] == all[j],
            forall|j: int| 0 <= j < reversed.len() ==> #[trigger] reversed@[j] == all[all.len() - 1 - j],
        decreases rest.len(),
    {
        let s = rest.pop().unwrap();
        reversed.push(s);
    }
    while reversed.len() > 0
        invariant
            out.len() + reversed.len() == all.len(),
            forall|j: int| 0 <= j < reversed.len() ==> #[trigger] reversed@[j] == all[all.len() - 1 - j],
            forall|j: int| 0 <= j < out.len() ==> #[trigger] out@[j]@ == StepView::Run(all[j]@),
        decreases reversed.len(),
    {
        let s = reversed.pop().unwrap();
        out.push(Step::Run(s));
    }
    out
}

/// Seeding a project: insert it at the current time where it is missing,
/// then make sure of its statuses and of its tags.
pub fn seed_project(project_id: &String) -> (r: Vec<Step>)
    ensures
        is_seeding(project_id@, steps_view(r@)),
{
    let insert = seed_project_insert(project_id);
    let r = vec![
        Step::Run(insert),
        Step::Decide(Decision::EnsureStatuses(project_id.clone())),
        Step::Decide(Decision::EnsureTags(project_id.clone())),
    ];
    let ghost now = choose|now: Seq<char>|
        ends_with(now, "+00:00"@) && r@[0]@ == StepView::Run(seed_project_insert_spec(project_id@, now));
    assert(steps_view(r@) =~= seeding(project_id@, now));
    r
}

impl Decision {
    /// The statement whose one number the decision reads.
    pub fn query(&self) -> (r: Statement)
        ensures
            r@ == decision_query(self@),
    {
        match self {
            Decision::EnsureStatuses(p) => count_statuses(p),
            Decision::EnsureTags(p) => count_tags(p),
            Decision::SeedIfNoProjects => count_projects(),
            Decision::SeedIfMissing(p) => count_projects_with_id(p),
            Decision::SeedOrEnsureStatuses(p) => count_projects_with_id(p),
            Decision::NumberIssue(r) => next_issue_number(&r.project_id),
        }
    }

    /// Whether the number is read as a 32-bit integer (else as 64-bit).
    pub fn reads_i32(&self) -> (r: bool)
        ensures
            r == decision_reads_i32(self@),
    {
        match self {
            Decision::SeedIfNoProjects => true,
            Decision::NumberIssue(_) => true,
            _ => false,
        }
    }

    /// The steps the decision goes on with, given the number it read.
    pub fn resolve(self, count: i64) -> (r: Vec<Step>)
        requires
            decision_reads_i32(self@) ==> i32::MIN <= count <= i32::MAX,
        ensures
            resolves_to(self@, count as int, steps_view(r@)),
    {
        let ghost d = self@;
        match self {
            Decision::EnsureStatuses(p) => {
                let inserts = ensure_default_statuses(&p, count);
                let ghost stmts = inserts@;
                let r = runs(inserts);
                assert forall|j: int| 0 <= j < r.len() implies #[trigger] steps_view(r@)[j] == StepView::Run(stmts[j]@) by {}
                r
            },
            Decision::EnsureTags(p) => {
                let inserts = ensure_default_tags(&p, count);
                let ghost stmts = inserts@;
                let r = runs(inserts);
                assert forall|j: int| 0 <= j < r.len() implies #[trigger] steps_view(r@)[j] == StepView::Run(stmts[j]@) by {}
                r
            },
            Decision::SeedIfNoProjects => {
                if needs_seed(count) {
                    let p = SEED_PROJECT_ID.to_string();
                    seed_project(&p)
                } else {
                    let r: Vec<Step> = Vec::new();
                    r
                }
            },
            Decision::SeedIfMissing(p) => {
                if needs_seed(count) {
                    seed_project(&p)
                } else {
                    let r: Vec<Step> = Vec::new();
                    r
                }
            },
            Decision::SeedOrEnsureStatuses(p) => {
                if needs_seed(count) {
                    seed_project(&p)
                } else {
                    let r = vec![Step::Decide(Decision::EnsureStatuses(p))];
                    assert(steps_view(r@) =~= seq![StepView::Decide(DecisionView::EnsureStatuses(d->SeedOrEnsureStatuses_0))]);
                    r
                }
            },
            Decision::NumberIssue(req) => {
                let c = create_issue(&req, count as i32);
                let ghost id = c.id@;
                let ghost insert = c.insert@;
                let r = vec![Step::Run(c.insert), Step::AnswerOne(c.fetch)];
                let ghost now = choose|now: Seq<char>|
                    ends_with(now, "+00:00"@) && insert == issue_insert(req, count as i32, id, now);
                assert(steps_view(r@) =~= seq![
                    StepView::Run(issue_insert(req, count as i32, id, now)),
                    StepView::AnswerOne(statement(Sql::IssueById, seq![SqlValueView::Text(id)])),
                ]);
                r
            },
        }
    }
}

} // verus!

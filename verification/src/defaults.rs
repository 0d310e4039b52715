//! The fixed values of the local board: default colours and ids, the seeded
//! project, and the statuses and tags that every project starts with.
use vstd::prelude::*;

verus! {

/// The colour given to a project, status or tag created without one.
pub const DEFAULT_COLOR: &'static str = "#6b7280";

/// The status given to an issue created without one (the fixed id listed
/// beside "Backlog").
pub const DEFAULT_STATUS_ID: &'static str = "00000000-0000-0000-0000-000000000010";

/// The project seeded when the project table is empty.
pub const SEED_PROJECT_ID: &'static str = "00000000-0000-0000-0000-000000000002";

/// The organization of the seeded project.
pub const SEED_ORGANIZATION_ID: &'static str = "00000000-0000-0000-0000-000000000001";

/// The name of the seeded project.
pub const SEED_PROJECT_NAME: &'static str = "Local Dev Project";

/// The colour of the seeded project.
pub const SEED_PROJECT_COLOR: &'static str = "#f59e0b";

/// A status that every project starts with. Its fixed `id` is listed for
/// reference; the statuses that are inserted get fresh ids.
#[derive(Clone, Copy, Debug)]
pub struct StatusSeed {
    pub name: &'static str,
    pub color: &'static str,
    pub id: &'static str,
    pub sort_order: i32,
}

/// A tag that every project starts with. Its fixed `id` is listed for
/// reference; the tags that are inserted get fresh ids.
#[derive(Clone, Copy, Debug)]
pub struct TagSeed {
    pub name: &'static str,
    pub color: &'static str,
    pub id: &'static str,
}

pub open spec fn default_statuses() -> Seq<StatusSeed> {
    seq![
        StatusSeed { name: "Backlog", color: "#6b7280", id: "00000000-0000-0000-0000-000000000010", sort_order: 0 },
        StatusSeed { name: "In Progress", color: "#3b82f6", id: "00000000-0000-0000-0000-000000000011", sort_order: 1 },
        StatusSeed { name: "Review", color: "#f59e0b", id: "00000000-0000-0000-0000-000000000012", sort_order: 2 },
        StatusSeed { name: "Done", color: "#22c55e", id: "00000000-0000-0000-0000-000000000013", sort_order: 3 },
    ]
}

pub open spec fn default_tags() -> Seq<TagSeed> {
    seq![
        TagSeed { name: "Bug", color: "#ef4444", id: "00000000-0000-0000-0000-000000000020" },
        TagSeed { name: "Feature", color: "#22c55e", id: "00000000-0000-0000-0000-000000000021" },
        TagSeed { name: "Enhancement", color: "#8b5cf6", id: "00000000-0000-0000-0000-000000000022" },
    ]
}

/// The statuses that every project starts with, in order.
pub fn default_status_seeds() -> (r: Vec<StatusSeed>)
    ensures
        r@ == default_statuses(),
{
    let r = vec![
        StatusSeed { name: "Backlog", color: "#6b7280", id: "00000000-0000-0000-0000-000000000010", sort_order: 0 },
        StatusSeed { name: "In Progress", color: "#3b82f6", id: "00000000-0000-0000-0000-000000000011", sort_order: 1 },
        StatusSeed { name: "Review", color: "#f59e0b", id: "00000000-0000-0000-0000-000000000012", sort_order: 2 },
        StatusSeed { name: "Done", color: "#22c55e", id: "00000000-0000-0000-0000-000000000013", sort_order: 3 },
    ];
    assert(r@ =~= default_statuses());
    r
}

/// The tags that every project starts with, in order.
pub fn default_tag_seeds() -> (r: Vec<TagSeed>)
    ensures
        r@ == default_tags(),
{
    let r = vec![
        TagSeed { name: "Bug", color: "#ef4444", id: "00000000-0000-0000-0000-000000000020" },
        TagSeed { name: "Feature", color: "#22c55e", id: "00000000-0000-0000-0000-000000000021" },
        TagSeed { name: "Enhancement", color: "#8b5cf6", id: "00000000-0000-0000-0000-000000000022" },
    ];
    assert(r@ =~= default_tags());
    r
}

} // verus!

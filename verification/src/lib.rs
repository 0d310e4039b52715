//! Verified request handling for the local project board: the records it
//! serves, the defaults it fills in, and the exact SQL statements (with their
//! bound parameters) that each route issues against the local store.

pub mod defaults;
pub mod ids;
pub mod sql;
pub mod model;
pub mod statuses;
pub mod tags;
pub mod projects;
pub mod decimal;
pub mod issues;
pub mod laws;
pub mod steps;
pub mod routes;
pub mod bindings;

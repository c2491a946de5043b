//! Read-only HTTP access to the tables of a relational database, with the
//! request-level logic verified: a startup-built allowlist of table names, a
//! query planner that interpolates only validated table names into statement
//! text, a row codec from typed database cells to a JSON value tree, a
//! pagination engine, and a classifier from database failures to request
//! outcomes. The HTTP front door, the connection pool and process bootstrap
//! live outside this crate and exchange plain values with it.

pub mod codec;
pub mod errors;
pub mod foreign;
pub mod handlers;
pub mod json;
pub mod logging;
pub mod pagination;
pub mod planner;
pub mod registry;


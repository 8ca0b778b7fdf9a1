//! A small service for one resource, the post: create, read, update and
//! delete, over a table of rows kept newest first.
//!
//! - `models`: the post and the two request shapes.
//! - `store`: the posts table as a value, and what each statement does to it.
//! - `table`: a posts table held in memory, proved against `store`.
//! - `db`: the persistence operations.
//! - `handlers`: the routes, and the response that each outcome maps to.
//! - `laws`: what holds across operations.
//! - `ident`, `clock`: post ids and the time of day, from the `uuid` and
//!   `chrono` crates.

pub mod clock;
pub mod db;
pub mod handlers;
pub mod ident;
pub mod laws;
pub mod models;
pub mod store;
pub mod table;

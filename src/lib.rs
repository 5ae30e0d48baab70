//! Flattening of geographic reference datasets (municipalities, departments,
//! localities) from JSON responses into CSV tables, and the decisions of the
//! job that fetches, saves and tabulates each of them.
pub mod dataset;
pub mod error;
pub mod job;
pub mod json;
pub mod parse;
pub mod record;
pub mod table;

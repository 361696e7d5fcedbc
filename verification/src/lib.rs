//! Transactional import core for a small project-management store.
//!
//! The library loads one batch of externally sourced task and resource
//! records into a relational store model, all or nothing: it resolves the
//! default baseline id from the configuration table, infers missing task
//! date bounds from child records, resolves natural-key references
//! (task summary, resource-type name, resource description) to generated
//! ids, and appends the planned rows only when every step has succeeded.

pub mod config;
pub mod datetime;
pub mod engine;
pub mod error;
pub mod hierarchy;
pub mod models;
pub mod parse;
pub mod records;
pub mod resolve;

//! Task repository with verified id allocation, search predicates and
//! partial updates over a soft-deletable task collection.
//!
//! - `model`: tasks, dates, timestamps, requests and errors.
//! - `ids`: named id sequences handing out unique, increasing ids and ranges.
//! - `predicate`: search predicates (visibility always included) and partial updates.
//! - `repository`: the task collection with its operations; records are never
//!   removed, only marked as deleted.
//! - `dates`, `text`, `formatters`, `params`, `listing`: reading human input
//!   (date and enum literals, tool parameters) and rendering task listings.
//! - `config`: connection settings of the document database.
//!
//! A document-database backend runs the same predicates and updates by
//! translating `predicate::TaskPredicate` and `model::UpdateTaskRequest`
//! into queries; `ids::first_id_of_range` turns its atomic counter into ids.

pub mod model;
pub mod text;
pub mod dates;
pub mod predicate;
pub mod ids;
pub mod repository;
pub mod formatters;
pub mod listing;
pub mod params;
pub mod config;

//! A single-file document store for portfolio records: the data model and the
//! rules that load, merge, delete and export operate by.
pub mod error;
pub mod model;
pub mod repository;
pub mod store;

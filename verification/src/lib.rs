//! A verified model of a small application-form backend.
//!
//! The service stores "application" records (one multi-page form submission
//! each) together with a set of competence-response tags per application, and
//! offers four operations: create a blank application, fetch one by id, list
//! all of them, and apply a partial update. This crate holds the verified
//! core: the data model, the partial-update semantics, the statement plan
//! that an update compiles to, and the mapping from raw storage rows to
//! response values. The surrounding HTTP and database plumbing lives outside.

pub mod error;
pub mod laws;
pub mod model;
pub mod plan;
pub mod rows;
pub mod store;

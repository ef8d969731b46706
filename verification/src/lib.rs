//! Bridge between a relational host and tables kept in an object store.
//!
//! `datafusion::provider` decides how a storage path and a declared file
//! extension are resolved into a table provider, one outside step at a time.
//! `schema` carries civil dates and times into the host's scalar encodings.

pub mod datafusion;
pub mod schema;

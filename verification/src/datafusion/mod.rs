//! Resolution of a storage path and a declared file extension into a table
//! provider, for the two formats that the bridge knows.

pub mod delta;
pub mod listing;
pub mod provider;

//! Temporal values: the civil-calendar side and the host side.

pub mod calendar;
pub mod datetime;
pub mod host;

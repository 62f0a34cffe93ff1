//! The segments.

pub mod azure;

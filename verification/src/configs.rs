//! Settings of the segments.

pub mod azure;

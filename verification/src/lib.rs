//! Resolves the Azure subscription that is active for a shell session and
//! binds its name to the variables of a prompt segment.
//!
//! The library works on values only: the environment and the configuration
//! files reach it as a [`context::Context`], and what it hands back is either
//! absence or the bindings that a template engine needs to draw the segment.
//! Parsing is left to the `ini` and `serde_json` crates, whose part is
//! declared in [`ini_document`] and [`json_document`]; everything else is
//! proved.

pub mod configs;
pub mod context;
pub mod ini_document;
pub mod json_document;
pub mod laws;
pub mod modules;
pub mod text;

//! Switches one named plugin on and off in a JSON configuration document,
//! keeping every other field of the document as it was.

pub mod commands;
pub mod document;
pub mod error;
pub mod json;
pub mod laws;
pub mod paths;
pub mod plugins;
pub mod store;

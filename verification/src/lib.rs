//! Settings of the mod: a handful of feature toggles and a list of resource
//! overrides, kept as one JSON file and read once at start-up.

pub mod config;
pub mod json;
pub mod loader;
pub mod schema;

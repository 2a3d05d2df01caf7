//! Renders a template against a context assembled from one structured-data
//! source (a TOML, JSON or YAML document, the process environment, or
//! nothing), optionally nested under a single root key.

pub mod config;
pub mod context;
pub mod errors;
pub mod outside;
pub mod parse;
pub mod pipeline;
pub mod render;
pub mod value;

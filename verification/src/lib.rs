//! Configuration model and planning logic for mirroring helm charts.
pub mod text;
pub mod vars;
pub mod source;
pub mod template;
pub mod patch;
pub mod regexp;
pub mod extension;
pub mod config;
pub mod inclusion;
pub mod step;
pub mod mirror;

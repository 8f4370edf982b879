//! Self-update core: version parsing, channel resolution, asset selection
//! and the decisions of one update run.

pub mod asset;
pub mod executor;
pub mod laws;
pub mod resolver;
pub mod text;
pub mod version;

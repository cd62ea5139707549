//! Verified core of a loader that turns line-delimited dictionary entries
//! into a normalized word / definition / relation store.

pub mod record;
pub mod plan;
pub mod store;
pub mod pipeline;
pub mod writer;

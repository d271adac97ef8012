//! The query/result abstraction layer: backend-independent queries, the
//! canonical result table, and the backends that produce it.

pub mod dummy;
pub mod fetcher;
pub mod query_builder;
pub mod redis;

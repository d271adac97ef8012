//! A query/result abstraction layer for browsing structurally different
//! database backends through one canonical tabular shape.

pub mod config;
pub mod dbclient;
pub mod text;
pub mod ui;

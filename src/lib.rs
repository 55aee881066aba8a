//! An in-memory ticket tracker with two concurrency designs: a single-writer
//! actor fed through a bounded mailbox, and a shared directory of
//! individually locked ticket records.
pub mod actor;
pub mod data;
pub mod service;
pub mod shared;
pub mod store;

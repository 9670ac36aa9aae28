//! A recursive, regex-based text search library: the incremental search
//! pipeline of a grep-like tool, from configuration to per-file match
//! grouping, the producer/consumer result queue, and the cancellation
//! protocol of the interactive front end.

pub mod app;
pub mod cli;
pub mod controller;
pub mod icons;
pub mod keys;
pub mod policy;
pub mod printer;
pub mod queue;
pub mod search;
pub mod strings;

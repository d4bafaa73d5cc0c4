//! What callers can rely on, call by call: each law takes arguments and results of
//! calls and says how they relate.

pub mod catalog;
pub mod compaction;
pub mod config;
pub mod conversation;
pub mod event;
pub mod resolution;
pub mod sampler;
pub mod text;

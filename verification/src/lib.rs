//! Storage and replication core of a key-value database node.
//!
//! Many independent namespaces share one ordered storage engine: every key
//! carries the namespace's id in front. This crate holds the key layout, what
//! a namespace asks of the engine and how it reads the answers, and the
//! messages that nodes exchange. The engine itself is driven by the caller.

pub mod lex;
pub mod codec;
pub mod engine;
pub mod namespace;
pub mod options;
pub mod sentinel;
pub mod iterators;
pub mod clear;
pub mod storage;
pub mod types;
pub mod fabric_msg;

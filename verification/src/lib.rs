//! Client-side codec for the CQL native protocol, version 4, and the plain
//! data of the node that uses it.
//!
//! Requests are assembled byte by byte (`header`, `query`, `encoder`,
//! `compression`); responses are read back through a checked view (`decoder`),
//! cell by cell (`column`, `value`), and folded into an aggregate of the
//! caller's choosing (`rows`). `approvees` and `insert` are statements built
//! on these. `config`, `sync`, `mqtt` and `broker` hold what the node keeps
//! about its storage, its progress and its feeds.

pub mod approvees;
pub mod auth_challenge;
pub mod broker;
pub mod column;
pub mod compression;
pub mod config;
pub mod consistency;
pub mod decoder;
pub mod encoder;
pub mod header;
pub mod inet;
pub mod insert;
pub mod mqtt;
pub mod opcode;
pub mod query;
pub mod rows;
pub mod statements;
pub mod sync;
pub mod value;
pub mod wire;

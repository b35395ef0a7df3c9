//! An in-memory CRUD backend for a small HTTP service exposing two resource
//! groups, posts and users.
//!
//! The crate provides the parts of such a service that are worth specifying:
//! entity models, a generic provider contract for CRUD over one entity type,
//! an in-memory store implementation with generated identifiers, a
//! bearer-token authorization gate, and the routing decisions that map each
//! endpoint to one provider call and a status-coded response. The surrounding
//! HTTP framework, logging and configuration are left to the binary that
//! embeds this crate.

pub mod auth;
pub mod laws;
pub mod posts;
pub mod provider;
pub mod shared;
pub mod state;
pub mod store;
pub mod strutil;
pub mod users;

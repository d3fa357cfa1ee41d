//! `specs_v`: projects and their specifications (one per tag: architecture, business,
//! qa, security), kept in SQLite and offered over HTTP and as MCP tools.
//!
//! The library holds the verified logic: tags and their parsing, the stored JSON form of
//! a spec's content, the repositories over `rusqlite`, the operations with their
//! validation rules and error classes, the HTTP and MCP bodies and errors, and the
//! correlation ids and argument fingerprints of tool invocations.
use vstd::prelude::*;

pub mod content;
pub mod db;
pub mod http;
pub mod json;
pub mod mcp;
pub mod observability;
pub mod project;
pub mod service;
pub mod spec;
pub mod sqlite;
pub mod statement;
pub mod tag;
pub mod text;

verus! {

} // verus!

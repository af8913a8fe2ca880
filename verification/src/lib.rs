//! A memoizing, dependency-tracked query engine, and the reading of
//! attributes.
//!
//! A query is a pure computation identified by a key. The engine caches each
//! result, registers running jobs so that a key is computed by one owner at
//! a time, reports cycles among running queries, and reuses results of an
//! earlier session where the dependency graph says that their inputs are
//! unchanged.
//!
//! - `caches` holds the completed results, `state` the running jobs, and
//!   `job` and `waiting` what is known of running jobs: the stack they
//!   form, and who waits for whom.
//! - `plumbing` is the executor. It works against the collaborators of
//!   `plumbing::QueryContext`: the providers, the dependency graph, the
//!   results of the earlier session and the diagnostics. `untracked` holds
//!   collaborators for a session without an earlier one, and `context` the
//!   handle through which a program asks its queries.
//! - `config` and `dep_graph` hold the plain values that these exchange.
//! - `ast`, `attr` and `attr_parse` hold the syntax of attributes and the
//!   functions that read meta items out of their tokens.

pub mod ast;
pub mod attr;
pub mod attr_parse;
pub mod caches;
pub mod config;
pub mod context;
pub mod dep_graph;
pub mod job;
pub mod plumbing;
pub mod state;
pub mod untracked;
pub mod waiting;

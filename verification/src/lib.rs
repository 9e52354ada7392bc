//! Blocking query execution for a database client.
//!
//! A backend answers a query with one ordered stream in which statement
//! summaries and rows interleave. Every execution operation of
//! [`SyncExecutor`] is a filter or a fold over that stream, and
//! [`SyncSqliteConnection`] is the backend that produces it from a native,
//! single-connection engine.
//!
//! - [`item`] and [`model`]: the items of a stream, and what each operation
//!   makes of a stream, as functions on sequences.
//! - [`stream`]: streams that are pulled item by item, and the adapters that
//!   filter and bound them.
//! - [`query`], [`database`], [`error`]: what is executed, the types of a
//!   backend, and the failures.
//! - [`executor`]: the operations, built on two primitives.
//! - [`engine`] and [`connection`]: the native engine as it is consumed, and
//!   the connection that bridges it to the executor.
//! - [`scripted`] and [`sqlite`]: an engine that answers from a script, and
//!   the statement summary of SQLite.
//! - [`laws`]: what holds of the operations for every stream.
pub mod connection;
pub mod database;
pub mod engine;
pub mod error;
pub mod executor;
pub mod item;
pub mod laws;
pub mod model;
pub mod query;
pub mod scripted;
pub mod sqlite;
pub mod stream;

pub use crate::connection::SyncSqliteConnection;
pub use crate::error::Error;
pub use crate::executor::SyncExecutor;

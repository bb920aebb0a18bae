//! The backend of a live-stream service, as far as it decides: a job queue
//! with bounded retry, a time-indexed event log with range queries, the
//! worker runtime that drains the queue, and the rules by which the HTTP
//! layer turns callers away. The broker, the database and the network are
//! reached by the caller; this library says what is asked of them and what
//! their answers mean.
pub mod api;
pub mod broker;
pub mod db;
pub mod error;
pub mod event;
pub mod query;
pub mod queue;
pub mod stream;
pub mod subject;
pub mod timestamp;
pub mod video;
pub mod worker;

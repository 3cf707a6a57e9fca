//! Typed client library for a cloud data-platform's REST control plane:
//! SQL statement execution, cluster metadata retrieval and job-run
//! triggering. The request/response translation layer is verified: the
//! JSON data model of every remote shape, the error taxonomy, and the
//! dispatch rules that turn an HTTP outcome into a typed value. The
//! transport itself (a pooled asynchronous HTTP client) lives outside
//! the library and hands it plain status codes and body text.

pub mod cluster_info;
pub mod config;
pub mod datetime;
pub mod dispatch;
pub mod errors;
pub mod json;
pub mod job_run_info;
pub mod jsontext;
pub mod numfmt;
pub mod session;
pub mod sql_statement;
mod text;

pub use text::str_eq;

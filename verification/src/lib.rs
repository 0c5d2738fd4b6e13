//! Watch the sources a build target depends on and decide when to
//! re-run the build tool: path classification, query-output parsing,
//! invocation parsing, watch-set construction and the event rules.

pub mod classify;
pub mod invocation;
pub mod query;
pub mod trigger;
pub mod watchset;

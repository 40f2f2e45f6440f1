//! Test-instrumentation harness for a database client: the events the client
//! emits (command started / succeeded / failed, pool cleared) are buffered in
//! arrival order in shared queues, and correlation and filtering queries over
//! those queues back the assertions that tests make.

pub mod client;
pub mod correlate;
pub mod event;
pub mod filter;
pub mod handler;
pub mod options;
pub mod queue;

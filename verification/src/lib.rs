//! Startup-behavior resolution and runtime orchestration for a data-logging
//! client.
//!
//! Given a small, closed set of mutually exclusive startup directives (save to
//! a file, connect to a remote viewer, serve a web viewer, or spawn a local
//! viewer), this crate resolves exactly one behavior with a fixed precedence
//! order, and drives the surrounding run — sink construction, the caller's
//! logic, a flush, and (for the serve behavior) a final shutdown wait — as a
//! verified state machine. The I/O itself (sinks, sessions, the async
//! runtime) is performed by the embedding application, which feeds the
//! machine's decisions back as events.

pub mod behavior;
pub mod config;
pub mod orchestrate;
pub mod trace;

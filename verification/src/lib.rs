//! Execution core of an interactive command shell.
//!
//! Given a parsed command description, this library resolves redirections,
//! plans the wiring of pipelines, and tracks the lifecycle of foreground and
//! background jobs. Everything that touches the operating system (spawning
//! processes, waiting, signalling, file handles) is left to the surrounding
//! binary; this crate computes, with verified contracts, exactly what that
//! surrounding code must do.

pub mod builtins;
pub mod error;
pub mod external;
pub mod job;
pub mod redirect;
pub mod report;
pub mod session;

//! Capture standard input into an ephemeral workspace file, rewrite a
//! template argument list around that file's path, and surface the exit
//! outcome of the utility that is run on the captured file.
//!
//! The crate holds the decision logic of that pipeline: which bytes of the
//! input end up in the workspace file, how the argument template is rewritten,
//! which exit code the run reports, and the phase ordering that keeps the
//! workspace alive for as long as the child process may read it. The
//! surrounding binary performs the actual reads, writes and process control
//! and hands plain values in and out.

pub mod bytes;
pub mod capture;
pub mod config;
pub mod dispatch;
pub mod miss;
pub mod outcome;
pub mod readline;
pub mod replace;
pub mod session;
pub mod workspace;

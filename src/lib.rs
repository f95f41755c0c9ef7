//! Finds the name of the application that owns keyboard focus.
//!
//! The operating-system calls are made by the caller; this library decides,
//! after each call, what to ask next or which name to report.
pub mod exe_path;
pub mod outcome;
pub mod window_chain;
pub mod workspace_chain;

//! A diagnostic probe that determines the minimum stack size needed to
//! clone a namespace-isolated child process which itself spawns threads.
//!
//! The library holds everything the probe decides or computes: parsing and
//! validating the requested stack size, the fixed namespace-isolation flag
//! word handed to the clone call, the zeroed child-stack buffer, and the
//! deterministic fill-and-verify pattern that each worker thread runs over
//! its own stack. The process- and thread-creation calls themselves live in
//! the surrounding binary.

pub mod args;
pub mod flags;
pub mod launch;
pub mod stack;

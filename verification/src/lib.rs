//! Front end of a web-crawling tool that can run standalone or distributed.
//!
//! The library turns the raw invocation tokens of a process into a validated
//! configuration and routes that configuration to exactly one collaborator
//! operation.  Everything is pure: validation returns a tagged error instead
//! of terminating the process, and dispatch returns the chosen operation as a
//! value, so a thin boundary layer can print usage text, exit, or invoke the
//! collaborators.

pub mod argparser;
pub mod errors;
pub mod laws;
pub mod tokens;

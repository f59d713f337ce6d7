//! Command-line interpretation for a two-mode file-transfer tool.
//!
//! A raw argument sequence is turned into exactly one of two validated
//! requests: a point-to-point copy (source path, destination path) or a
//! server start (listening port, with a compiled-in default when no port
//! is given). The scan is a single linear pass: each token is classified
//! (port option, attached option value, bare positional value), folded
//! into a small accumulator, and the final accumulator state is resolved
//! into a request or a classified error.

pub mod args;
pub mod error;
pub mod laws;
pub mod port;
pub mod scan;
pub mod token;

//! Verified core of an editor extension that provides the Mojo language
//! server: it decides how to locate or fetch the `magic` executable that
//! ships the server, and what command the editor should spawn.
//!
//! All host interaction (file metadata, release lookup, downloads, status
//! reporting) happens outside this crate. The crate supplies the decisions:
//! a resolver state machine that, fed the outcome of each host operation,
//! yields the next operation to perform, together with the pure
//! computations (asset names, directory names, command lines) those
//! decisions rest on.

pub mod command;
pub mod laws;
pub mod names;
pub mod resolver;
mod text;

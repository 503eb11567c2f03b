//! A tool server speaking newline-delimited JSON-RPC over standard
//! input/output. It exposes a single tool, `exec`, which runs a Nushell
//! script in a subprocess under a wall-clock timeout and reports the
//! captured stdout, stderr and exit code.
//!
//! The protocol state machine, the request validation, the mapping from
//! execution outcomes to response frames, and the exact text of every
//! emitted frame are verified. Reading stdin, writing stdout and spawning
//! the interpreter live in the surrounding binary.

pub mod exec;
pub mod jsonio;
pub mod protocol;
pub mod respond;
pub mod session;
pub mod text;

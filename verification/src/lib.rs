//! Verified core of a session-actor server.
//!
//! The server manages many independent, long-lived sessions, each of which
//! accumulates numeric observations and computes their arithmetic mean either
//! in plaintext or under homomorphic encryption.  This crate holds the parts
//! of that design that can be stated and proved: the command and reply types
//! of the mailbox protocol, the per-session state machines of the two
//! backends, the session-id scheme, and the registry that maps session ids to
//! mailbox handles.  The asynchronous plumbing (the HTTP transport, the tokio
//! tasks and channels, the floating-point reductions and the cryptographic
//! collaborator) lives outside and drives these machines.

pub mod registry;
pub mod session;
pub mod session_common;
pub mod session_encrypted;

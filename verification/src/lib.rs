//! Decision core of a pseudo-terminal session: how a session is set up on
//! both sides of a fork, where input and resize requests go, and how the
//! bytes read from the master end become output chunks.
//!
//! Nothing in this crate performs a system call. Each function takes what a
//! system call returned and answers with what to do next, so the caller owns
//! the descriptors and the process while the rules are stated and proved here.

pub mod size;
pub mod session;
pub mod spawn;
pub mod bridge;

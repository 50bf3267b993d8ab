//! Decisions of a single-track streaming client: which track references are
//! well formed, which credentials a run logs in with, how a run proceeds from
//! one outside operation to the next, and how its failures are reported.
//!
//! Nothing here performs I/O. The caller opens the credential cache, connects
//! and drives the player; this crate says what to do next and why.

pub mod credentials;
pub mod error;
pub mod pipeline;
pub mod trace;
pub mod track;

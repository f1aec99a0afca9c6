//! Generation of commit messages for pending version-control changes.
//!
//! The crate resolves the request URL for a remote completion endpoint,
//! assembles a multi-turn prompt from diff text, decodes the streamed
//! response incrementally, and prepares the commands that acquire diffs
//! and record the final commit.

pub mod ai;
pub mod config;
pub mod endpoint;
pub mod git;
pub mod prompt;
pub mod sse;

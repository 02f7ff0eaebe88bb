//! What each HTTP route of the relay decides.

pub mod commit_hook;
pub mod webhook;

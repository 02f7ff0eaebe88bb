//! Relays GitHub webhook events as chat notifications over XMPP.
//!
//! The crate holds the decisions of the relay: which destination a repository
//! maps to, whether a workflow run is announced, what a notification says, and
//! in which order the XMPP session is brought up.

pub mod app;
pub mod config;
pub mod routes;
pub mod services;
pub mod templates;
pub mod text;
pub mod webhook;
pub mod xmpp;

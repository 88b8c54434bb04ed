//! Keeps a machine signed in on a network that sits behind an HTTP captive
//! portal.
//!
//! The crate holds the decisions only: how a probe response is read, how
//! the portal page is parsed, which request a login takes, how one sign-in
//! cycle moves from step to step, and how soon the next cycle is due.
//! Every request, sleep and file access is left to the caller, which feeds
//! the results back in as plain values.

pub mod captive_portal;
pub mod daemon;
pub mod error;
pub mod service;
pub mod session;
pub mod state;
pub mod text;

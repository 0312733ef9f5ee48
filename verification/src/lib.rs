//! Idle detection for a machine with terminal sessions and a graphical session.
//!
//! The crate holds the decisions of an idle watcher: how the login sessions'
//! idle times are reduced to one sample, how the link to the compositor's idle
//! notifier is brought up and serviced, how the two signals are fused, and when
//! the configured action is due. Reading files, talking to the compositor and
//! spawning the action are left to the program that drives these decisions.

pub mod cli;
pub mod config;
pub mod connect;
pub mod decimal;
pub mod fusion;
pub mod link;
pub mod session;
pub mod watcher;

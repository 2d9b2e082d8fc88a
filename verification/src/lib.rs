//! A real-time broadcast relay: the registry of live connections, the
//! fan-out of one text message to every registered connection, and the
//! lifecycle of one connection session.
//!
//! The crate holds the decisions; the sockets, the tasks and the lock around
//! the registry belong to the program that embeds it.

pub mod channel;
pub mod ident;
pub mod loops;
pub mod registry;
pub mod session;

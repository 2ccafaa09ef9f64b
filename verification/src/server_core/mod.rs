//! The server's current core: a manager that relays already-encoded frames and
//! answers each relay request with its outcome, and per-connection handlers.

pub mod command;
pub mod conn_mngr;
pub mod connection_handler;
pub mod connection_manager;
pub mod serialization;
pub mod ws_stream_handler;

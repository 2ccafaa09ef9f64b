//! Message-relay server core: a registry of connected clients, the routing
//! decisions of the connection managers and handlers, client identifiers and
//! the messages exchanged with clients.

pub mod ids;
pub mod rng;
pub mod clients;
pub mod serialization;
pub mod ws;
pub mod connection_manager;
pub mod server_core;

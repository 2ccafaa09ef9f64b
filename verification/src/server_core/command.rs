//! Commands sent to the server core's connection manager.

use vstd::prelude::*;

verus! {

/// A command for the connection manager. `S` is the connection of a client
/// that has just connected, `M` an encoded frame, `T` the channel on which the
/// outcome of a relay is reported back.
pub enum Command<S, M, T> {
    /// Register a new connection.
    Register(S),
    /// Unregister the client with this identifier.
    Unregister(String),
    /// Relay the frame `msg` to the client `client_id`, reporting the outcome
    /// on `result_tx`.
    RelayMessage { client_id: String, msg: M, result_tx: T },
}

} // verus!

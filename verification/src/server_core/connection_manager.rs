//! The server core's connection manager: the registry of connected clients
//! and the decisions taken on each command.

use crate::clients::{ClientTable, distinct_ids, entries_map};
use crate::connection_manager as routing;
use crate::ids::is_client_id;
use crate::server_core::command::Command;
use crate::server_core::serialization::{ServerMessage, ServerMessageView};
use crate::ws::{CLOSE_AWAY, CloseFrame, WsMessage, WsMessageView};
use vstd::prelude::*;

verus! {

/// Why a relay failed.
#[derive(Debug, Clone, PartialEq, Eq)]
pub struct RelayError {
    pub msg: String,
}

/// The text of the error reported when a relay's recipient is not registered.
pub open spec fn recipient_missing() -> Seq<char> {
    "Failed to send message: recipient not found"@
}

/// What handling a command leaves for the manager's task to carry out.
pub enum Handled<S, M, T, H> {
    /// A new connection to register (see `ConnectionManager::claim_if_free`).
    Register(S),
    /// A relay: on `Ok`, write `msg` to the client `client_id`, then report
    /// the outcome on `result_tx`.
    Relay { client_id: String, msg: M, result_tx: T, outcome: Result<(), RelayError> },
    /// The client `client_id` was unregistered; `handle` is its handle, if it
    /// was registered.
    Unregistered { client_id: String, handle: Option<H> },
}

/// Active clients, each reached through a handle of type `H`.
pub struct ConnectionManager<H> {
    clients: ClientTable<H>,
}

impl<H> View for ConnectionManager<H> {
    type V = Map<Seq<char>, H>;

    closed spec fn view(&self) -> Map<Seq<char>, H> {
        self.clients@
    }
}

impl<H> ConnectionManager<H> {
    /// The manager's invariant: no client identifier is registered twice.
    pub closed spec fn wf(&self) -> bool {
        self.clients.wf()
    }

    /// A manager with no client.
    pub fn new() -> (m: Self)
        ensures
            m.wf(),
            m@ == Map::<Seq<char>, H>::empty(),
    {
        ConnectionManager { clients: ClientTable::new() }
    }

    /// Whether a client is registered under `client_id`.
    pub fn contains_key(&self, client_id: &String) -> (b: bool)
        requires
            self.wf(),
        ensures
            b == self@.contains_key(client_id@),
    {
        self.clients.contains_key(client_id)
    }

    /// The handle of the client `client_id`, for writing to it.
    pub fn client_mut(&mut self, client_id: &String) -> (r: Option<&mut H>)
        requires
            old(self).wf(),
        ensures
            old(self)@.contains_key(client_id@) == r.is_some(),
            r matches Some(h) ==> *h == old(self)@[client_id@],
            r matches Some(h) ==> final(self)@ == old(self)@.insert(client_id@, *final(h)),
            final(self).wf(),
            r is None ==> final(self)@ == old(self)@,
    {
        self.clients.get_mut(client_id)
    }

    /// Handles one command: a relay is routed (see `relay_msg`), an
    /// unregistration removes the client, a registration is handed back to be
    /// carried out with a fresh identifier.
    pub fn handle_command<S, M, T>(&mut self, cmd: Command<S, M, T>) -> (out: Handled<S, M, T, H>)
        requires
            old(self).wf(),
        ensures
            final(self).wf(),
            match cmd {
                Command::Register(s) => {
                    &&& out == Handled::<S, M, T, H>::Register(s)
                    &&& final(self)@ == old(self)@
                },
                Command::Unregister(id) => {
                    &&& final(self)@ == old(self)@.remove(id@)
                    &&& (out matches Handled::Unregistered { client_id: c, handle } && c@ == id@
                        && handle == (if old(self)@.contains_key(id@) {
                        Some(old(self)@[id@])
                    } else {
                        None::<H>
                    }))
                },
                Command::RelayMessage { client_id, msg, result_tx } => {
                    &&& final(self)@ == old(self)@
                    &&& (out matches Handled::Relay { client_id: c, msg: m, result_tx: t, outcome }
                        && c@ == client_id@ && m == msg && t == result_tx && (outcome is Ok
                        <==> old(self)@.contains_key(client_id@)) && (outcome matches Err(e)
                        ==> e.msg@ == recipient_missing()))
                },
            },
    {
        match cmd {
            Command::RelayMessage { client_id, msg, result_tx } => {
                let outcome = self.relay_msg(&client_id);
                Handled::Relay { client_id, msg, result_tx, outcome }
            },
            Command::Register(s) => Handled::Register(s),
            Command::Unregister(client_id) => {
                let handle = self.unregister_connection(&client_id);
                Handled::Unregistered { client_id, handle }
            },
        }
    }

    /// Claims a drawn identifier for registration (see
    /// `crate::connection_manager::claim_if_free`): `Ok` with it when no
    /// client holds it, `Err` with it when a client does.
    pub fn claim_if_free(&self, id: String) -> (r: Result<String, String>)
        requires
            self.wf(),
        ensures
            match r {
                Ok(x) => x == id && !self@.contains_key(id@),
                Err(x) => x == id && self@.contains_key(id@),
            },
    {
        routing::claim_if_free(&self.clients, id)
    }

    /// Registers a connection under a well-formed identifier no client holds
    /// (as `generate_rand_id` draws and `claim_if_free` accepts), and gives
    /// the message that tells the client its identifier.
    pub fn register_connection(&mut self, client_id: String, handle: H) -> (msg: ServerMessage)
        requires
            old(self).wf(),
            is_client_id(client_id@),
        !old(self)@.contains_key(client_id@),
        ensures
            final(self).wf(),
            final(self)@ == old(self)@.insert(client_id@, handle),
            msg@ == (ServerMessageView::ClientId { client_id: client_id@ }),
    {
        routing::register_connection(&mut self.clients, client_id, handle)
    }

    /// The outcome of relaying to `client_id`: `Ok` exactly when that client
    /// is registered (the frame is then written to it), otherwise the
    /// "recipient not found" error.
    pub fn relay_msg(&self, client_id: &String) -> (outcome: Result<(), RelayError>)
        requires
            self.wf(),
        ensures
            outcome is Ok <==> self@.contains_key(client_id@),
            outcome matches Err(e) ==> e.msg@ == recipient_missing(),
    {
        if self.clients.contains_key(client_id) {
            Ok(())
        } else {
            Err(RelayError { msg: String::from_str("Failed to send message: recipient not found") })
        }
    }

    /// Unregisters a client, handing back its handle if it was registered.
    pub fn unregister_connection(&mut self, client_id: &String) -> (removed: Option<H>)
        requires
            old(self).wf(),
        ensures
            final(self).wf(),
            final(self)@ == old(self)@.remove(client_id@),
            removed == (if old(self)@.contains_key(client_id@) {
                Some(old(self)@[client_id@])
            } else {
                None::<H>
            }),
    {
        self.clients.remove(client_id)
    }

    /// Unregisters every client at shutdown, handing each back once with its
    /// handle so that it can be sent `close_frame()`.
    pub fn disconnect_clients(&mut self) -> (all: Vec<(String, H)>)
        requires
            old(self).wf(),
        ensures
            final(self).wf(),
            final(self)@ == Map::<Seq<char>, H>::empty(),
            distinct_ids(all@),
            entries_map(all@) == old(self)@,
    {
        self.clients.drain()
    }
}

/// The frame sent to each client when the server shuts down: a close frame
/// with the "going away" code and the reason "Server is closing".
pub fn close_frame() -> (frame: WsMessage)
    ensures
        frame@ == WsMessageView::Close(Some((CLOSE_AWAY, "Server is closing"@))),
{
    WsMessage::Close(Some(CloseFrame { code: CLOSE_AWAY, reason: String::from_str("Server is closing") }))
}

} // verus!

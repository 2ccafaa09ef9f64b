//! A connection manager that relays message contents itself: it writes the
//! relayed message to the recipient, or reports a missing recipient to the
//! sender, and forwards error reports to their client.

use crate::clients::{ClientTable, distinct_ids, entries_map};
use crate::connection_manager::{
    self as routing, Command, Delivery, Handled, delivery_view, error_outcome, relay_outcome,
};
use crate::ids::is_client_id;
use crate::server_core::serialization::{ServerMessage, ServerMessageView};
use vstd::prelude::*;

verus! {

/// Active clients, each reached through a handle of type `H`.
pub struct ConnectionManager<H> {
    clients: ClientTable<H>,
}

impl<H> View for ConnectionManager<H> {
    type V = Map<Seq<char>, H>;

    closed spec fn view(&self) -> Map<Seq<char>, H> {
        self.clients@
    }
}

impl<H> ConnectionManager<H> {
    /// The manager's invariant: no client identifier is registered twice.
    pub closed spec fn wf(&self) -> bool {
        self.clients.wf()
    }

    /// A manager with no client.
    pub fn new() -> (m: Self)
        ensures
            m.wf(),
            m@ == Map::<Seq<char>, H>::empty(),
    {
        ConnectionManager { clients: ClientTable::new() }
    }

    /// The handle of the client `client_id`, for writing to it.
    pub fn client_mut(&mut self, client_id: &String) -> (r: Option<&mut H>)
        requires
            old(self).wf(),
        ensures
            old(self)@.contains_key(client_id@) == r.is_some(),
            r matches Some(h) ==> *h == old(self)@[client_id@],
            r matches Some(h) ==> final(self)@ == old(self)@.insert(client_id@, *final(h)),
            final(self).wf(),
            r is None ==> final(self)@ == old(self)@,
    {
        self.clients.get_mut(client_id)
    }

    /// Handles one command (see `crate::connection_manager::handle_command`).
    pub fn handle_command<S>(&mut self, cmd: Command<S>) -> (out: Handled<S, H>)
        requires
            old(self).wf(),
        ensures
            final(self).wf(),
            match cmd {
                Command::Register(s) => {
                    &&& out == Handled::<S, H>::Register(s)
                    &&& final(self)@ == old(self)@
                },
                Command::Unregister(id) => {
                    &&& final(self)@ == old(self)@.remove(id@)
                    &&& (out matches Handled::Unregistered { client_id: c, handle } && c@ == id@
                        && handle == (if old(self)@.contains_key(id@) {
                        Some(old(self)@[id@])
                    } else {
                        None::<H>
                    }))
                },
                Command::RelayMessage { sender_id, recvr_id, msg } => {
                    &&& final(self)@ == old(self)@
                    &&& (out matches Handled::Deliver(d) && delivery_view(d) == relay_outcome(
                        old(self)@.dom(),
                        sender_id@,
                        recvr_id@,
                        msg@,
                    ))
                },
                Command::ErrorMessage { client_id, msg } => {
                    &&& final(self)@ == old(self)@
                    &&& (out matches Handled::Deliver(d) && delivery_view(d) == error_outcome(
                        old(self)@.dom(),
                        client_id@,
                        msg@,
                    ))
                },
            },
    {
        routing::handle_command(cmd, &mut self.clients)
    }

    /// Claims a drawn identifier for registration (see
    /// `crate::connection_manager::claim_if_free`): `Ok` with it when no
    /// client holds it, `Err` with it when a client does.
    pub fn claim_if_free(&self, id: String) -> (r: Result<String, String>)
        requires
            self.wf(),
        ensures
            match r {
                Ok(x) => x == id && !self@.contains_key(id@),
                Err(x) => x == id && self@.contains_key(id@),
            },
    {
        routing::claim_if_free(&self.clients, id)
    }

    /// Registers a connection under a well-formed identifier no client holds
    /// (as `generate_rand_id` draws and `claim_if_free` accepts), and gives
    /// the message that tells the client its identifier.
    pub fn register_connection(&mut self, client_id: String, handle: H) -> (msg: ServerMessage)
        requires
            old(self).wf(),
            is_client_id(client_id@),
        !old(self)@.contains_key(client_id@),
        ensures
            final(self).wf(),
            final(self)@ == old(self)@.insert(client_id@, handle),
            msg@ == (ServerMessageView::ClientId { client_id: client_id@ }),
    {
        routing::register_connection(&mut self.clients, client_id, handle)
    }

    /// Where a message from `sender_id` to `recvr_id` goes (see
    /// `crate::connection_manager::relay_outcome`).
    pub fn relay_msg(&self, sender_id: String, recvr_id: String, msg: String) -> (out: Option<
        Delivery,
    >)
        requires
            self.wf(),
        ensures
            delivery_view(out) == relay_outcome(self@.dom(), sender_id@, recvr_id@, msg@),
            self@.contains_key(recvr_id@) ==> (out matches Some(d) && d.client_id@ == recvr_id@
                && d.msg@ == (ServerMessageView::Message { sender_id: sender_id@, msg: msg@ })),
            !self@.contains_key(recvr_id@) && self@.contains_key(sender_id@) ==> (out matches Some(d)
                && d.client_id@ == sender_id@ && d.msg@ == (ServerMessageView::Error {
                msg: "Recipient not found"@,
            })),
            !self@.contains_key(recvr_id@) && !self@.contains_key(sender_id@) ==> out is None,
    {
        routing::relay_msg(&self.clients, sender_id, recvr_id, msg)
    }

    /// Unregisters a client, handing back its handle if it was registered.
    pub fn unregister_connection(&mut self, client_id: &String) -> (removed: Option<H>)
        requires
            old(self).wf(),
        ensures
            final(self).wf(),
            final(self)@ == old(self)@.remove(client_id@),
            removed == (if old(self)@.contains_key(client_id@) {
                Some(old(self)@[client_id@])
            } else {
                None::<H>
            }),
    {
        self.clients.remove(client_id)
    }

    /// Where an error message for `client_id` goes (see
    /// `crate::connection_manager::error_outcome`).
    pub fn send_err_msg(&self, client_id: String, msg: String) -> (out: Option<Delivery>)
        requires
            self.wf(),
        ensures
            delivery_view(out) == error_outcome(self@.dom(), client_id@, msg@),
            self@.contains_key(client_id@) ==> (out matches Some(d) && d.client_id@ == client_id@
                && d.msg@ == (ServerMessageView::Error { msg: msg@ })),
            !self@.contains_key(client_id@) ==> out is None,
    {
        routing::send_err_msg(&self.clients, client_id, msg)
    }

    /// Unregisters every client at shutdown, handing each back once with its
    /// handle so that it can be sent `crate::connection_manager::closing_frames()`
    /// and have its task stopped.
    pub fn shutdown_clients(&mut self) -> (all: Vec<(String, H)>)
        requires
            old(self).wf(),
        ensures
            final(self).wf(),
            final(self)@ == Map::<Seq<char>, H>::empty(),
            distinct_ids(all@),
            entries_map(all@) == old(self)@,
    {
        routing::shutdown_clients(&mut self.clients)
    }
}

} // verus!

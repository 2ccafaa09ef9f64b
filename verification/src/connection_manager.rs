//! The connection manager's decisions: which registered client a command's
//! message goes to, what an unregistration removes, what a client's incoming
//! message asks of the manager, and what shutting down hands back.
//!
//! The manager's task (receiving commands, writing to sockets) runs around
//! these functions; every choice it makes is taken here.

use crate::clients::{ClientTable, distinct_ids, entries_map};
use crate::ids::is_client_id;
use crate::serialization::{ClientMessage, ServerMessage, ServerMessageView};
use crate::ws::{WsMessage, WsMessageView};
use vstd::prelude::*;

verus! {

/// A command sent to the connection manager. `S` is the connection of a
/// client that has just connected.
pub enum Command<S> {
    /// Register a new connection.
    Register(S),
    /// Unregister the client with this identifier.
    Unregister(String),
    /// Relay `msg` from the client `sender_id` to the client `recvr_id`.
    RelayMessage { sender_id: String, recvr_id: String, msg: String },
    /// Send the error `msg` to the client `client_id`.
    ErrorMessage { client_id: String, msg: String },
}

/// A message for one registered client.
pub struct Delivery {
    pub client_id: String,
    pub msg: ServerMessage,
}

/// A delivery: the addressee's identifier and the message's contents.
pub struct DeliveryView {
    pub client_id: Seq<char>,
    pub msg: ServerMessageView,
}

impl View for Delivery {
    type V = DeliveryView;

    open spec fn view(&self) -> DeliveryView {
        DeliveryView { client_id: self.client_id@, msg: self.msg@ }
    }
}

/// The text sent back to a sender whose recipient is not registered.
pub open spec fn recipient_not_found() -> Seq<char> {
    "Recipient not found"@
}

/// Where a relayed message goes: to the recipient if registered; otherwise an
/// error goes back to the sender if the sender is registered; otherwise
/// nowhere.
pub open spec fn relay_outcome(
    registered: Set<Seq<char>>,
    sender_id: Seq<char>,
    recvr_id: Seq<char>,
    msg: Seq<char>,
) -> Option<DeliveryView> {
    if registered.contains(recvr_id) {
        Some(
            DeliveryView {
                client_id: recvr_id,
                msg: ServerMessageView::Message { sender_id, msg },
            },
        )
    } else if registered.contains(sender_id) {
        Some(
            DeliveryView {
                client_id: sender_id,
                msg: ServerMessageView::Error { msg: recipient_not_found() },
            },
        )
    } else {
        None
    }
}

/// An error message goes to its client if that client is registered.
pub open spec fn error_outcome(
    registered: Set<Seq<char>>,
    client_id: Seq<char>,
    msg: Seq<char>,
) -> Option<DeliveryView> {
    if registered.contains(client_id) {
        Some(DeliveryView { client_id, msg: ServerMessageView::Error { msg } })
    } else {
        None
    }
}

/// The view of an optional delivery.
pub open spec fn delivery_view(d: Option<Delivery>) -> Option<DeliveryView> {
    match d {
        Some(d) => Some(d@),
        None => None,
    }
}

/// Decides where a relayed message goes (see `relay_outcome`).
pub fn relay_msg<H>(
    clients: &ClientTable<H>,
    sender_id: String,
    recvr_id: String,
    msg: String,
) -> (out: Option<Delivery>)
    requires
        clients.wf(),
    ensures
        delivery_view(out) == relay_outcome(clients@.dom(), sender_id@, recvr_id@, msg@),
        clients@.contains_key(recvr_id@) ==> (out matches Some(d) && d.client_id@ == recvr_id@
            && d.msg@ == (ServerMessageView::Message { sender_id: sender_id@, msg: msg@ })),
        !clients@.contains_key(recvr_id@) && clients@.contains_key(sender_id@) ==> (out matches Some(d)
            && d.client_id@ == sender_id@ && d.msg@ == (ServerMessageView::Error {
            msg: "Recipient not found"@,
        })),
        !clients@.contains_key(recvr_id@) && !clients@.contains_key(sender_id@) ==> out is None,
{
    if clients.contains_key(&recvr_id) {
        Some(Delivery { client_id: recvr_id, msg: ServerMessage::relayed_msg(sender_id, msg) })
    } else if clients.contains_key(&sender_id) {
        Some(Delivery { client_id: sender_id, msg: ServerMessage::error("Recipient not found") })
    } else {
        None
    }
}

/// Decides where an error message goes (see `error_outcome`).
pub fn send_err_msg<H>(clients: &ClientTable<H>, client_id: String, msg: String) -> (out: Option<
    Delivery,
>)
    requires
        clients.wf(),
    ensures
        delivery_view(out) == error_outcome(clients@.dom(), client_id@, msg@),
        clients@.contains_key(client_id@) ==> (out matches Some(d) && d.client_id@ == client_id@
            && d.msg@ == (ServerMessageView::Error { msg: msg@ })),
        !clients@.contains_key(client_id@) ==> out is None,
{
    if clients.contains_key(&client_id) {
        Some(Delivery { client_id, msg: ServerMessage::error(msg.as_str()) })
    } else {
        None
    }
}

/// What handling a command leaves for the manager's task to carry out.
pub enum Handled<S, H> {
    /// A new connection to register (see `claim_if_free`).
    Register(S),
    /// A message to write to one client, or nothing to write.
    Deliver(Option<Delivery>),
    /// The client `client_id` was unregistered; `handle` is its handle, if it
    /// was registered.
    Unregistered { client_id: String, handle: Option<H> },
}

/// Handles one command: relays and error messages are routed, an
/// unregistration removes the client, a registration is handed back to be
/// carried out with a fresh identifier.
pub fn handle_command<S, H>(cmd: Command<S>, clients: &mut ClientTable<H>) -> (out: Handled<S, H>)
    requires
        old(clients).wf(),
    ensures
        final(clients).wf(),
        match cmd {
            Command::Register(s) => out == Handled::<S, H>::Register(s) && final(clients)@ == old(
                clients,
            )@,
            Command::Unregister(id) => {
                &&& final(clients)@ == old(clients)@.remove(id@)
                &&& (out matches Handled::Unregistered { client_id: c, handle } && c@ == id@
                    && handle == (if old(clients)@.contains_key(id@) {
                    Some(old(clients)@[id@])
                } else {
                    None::<H>
                }))
            },
            Command::RelayMessage { sender_id, recvr_id, msg } => {
                &&& final(clients)@ == old(clients)@
                &&& (out matches Handled::Deliver(d) && delivery_view(d) == relay_outcome(
                    old(clients)@.dom(),
                    sender_id@,
                    recvr_id@,
                    msg@,
                ))
            },
            Command::ErrorMessage { client_id, msg } => {
                &&& final(clients)@ == old(clients)@
                &&& (out matches Handled::Deliver(d) && delivery_view(d) == error_outcome(
                    old(clients)@.dom(),
                    client_id@,
                    msg@,
                ))
            },
        },
{
    match cmd {
        Command::RelayMessage { sender_id, recvr_id, msg } => Handled::Deliver(
            relay_msg(clients, sender_id, recvr_id, msg),
        ),
        Command::Register(s) => Handled::Register(s),
        Command::Unregister(client_id) => {
            let handle = clients.remove(&client_id);
            Handled::Unregistered { client_id, handle }
        },
        Command::ErrorMessage { client_id, msg } => Handled::Deliver(
            send_err_msg(clients, client_id, msg),
        ),
    }
}

/// Claims a drawn identifier (see `crate::ids::generate_rand_id`) for
/// registration: `Ok` with the identifier when no client holds it, `Err` with
/// it when a client does, in which case registration draws again.
pub fn claim_if_free<H>(clients: &ClientTable<H>, id: String) -> (r: Result<String, String>)
    requires
        clients.wf(),
    ensures
        match r {
            Ok(x) => x == id && !clients@.contains_key(id@),
            Err(x) => x == id && clients@.contains_key(id@),
        },
{
    if clients.contains_key(&id) {
        Err(id)
    } else {
        Ok(id)
    }
}

/// Registers a connection under a well-formed identifier no client holds
/// (as `generate_rand_id` draws and `claim_if_free` accepts), and gives
/// the message that tells the client its identifier.
pub fn register_connection<H>(clients: &mut ClientTable<H>, client_id: String, handle: H) -> (msg:
    ServerMessage)
    requires
        old(clients).wf(),
        is_client_id(client_id@),
        !old(clients)@.contains_key(client_id@),
    ensures
        final(clients).wf(),
        final(clients)@ == old(clients)@.insert(client_id@, handle),
        msg@ == (ServerMessageView::ClientId { client_id: client_id@ }),
{
    let msg = ServerMessage::client_id(client_id.clone());
    clients.insert(client_id, handle);
    msg
}

/// The command that a client's incoming message asks for, given the
/// identifier of the client's connection and the message as decoded (or the
/// text of the decoding error): a relay from this client, its unregistration,
/// or an error report back to it; other messages ask for nothing.
pub fn handle_client_message<S>(client_id: &String, decoded: Result<ClientMessage, String>) -> (cmd:
    Option<Command<S>>)
    ensures
        match decoded {
            Ok(ClientMessage::Message { recvr_id, msg }) => cmd matches Some(
                Command::RelayMessage { sender_id: s, recvr_id: r, msg: m },
            ) && s@ == client_id@ && r@ == recvr_id@ && m@ == msg@,
            Ok(ClientMessage::Disconnect) => cmd matches Some(Command::Unregister(id)) && id@
                == client_id@,
            Ok(_) => cmd is None,
            Err(e) => cmd matches Some(Command::ErrorMessage { client_id: c, msg: m }) && c@
                == client_id@ && m@ == "Malformed request: "@ + e@,
        },
{
    match decoded {
        Ok(ClientMessage::Message { recvr_id, msg }) => Some(
            Command::RelayMessage { sender_id: client_id.clone(), recvr_id, msg },
        ),
        Ok(ClientMessage::Disconnect) => Some(Command::Unregister(client_id.clone())),
        Ok(_) => None,
        Err(e) => {
            let mut text = String::from_str("Malformed request: ");
            text.append(e.as_str());
            Some(Command::ErrorMessage { client_id: client_id.clone(), msg: text })
        },
    }
}

/// The frames written to each client when the server shuts down: a text
/// frame saying so, then a close frame without payload.
pub fn closing_frames() -> (frames: Vec<WsMessage>)
    ensures
        frames@.len() == 2,
        frames@[0]@ == WsMessageView::Text("Server is closing"@),
        frames@[1]@ == WsMessageView::Close(None),
{
    let mut frames = Vec::new();
    frames.push(WsMessage::Text(String::from_str("Server is closing")));
    frames.push(WsMessage::Close(None));
    frames
}

/// Unregisters every client at shutdown, handing each back once with its
/// handle so that it can be sent the closing frames.
pub fn shutdown_clients<H>(clients: &mut ClientTable<H>) -> (all: Vec<(String, H)>)
    requires
        old(clients).wf(),
    ensures
        final(clients).wf(),
        final(clients)@ == Map::<Seq<char>, H>::empty(),
        distinct_ids(all@),
        entries_map(all@) == old(clients)@,
{
    clients.drain()
}

/// Registering a client and then unregistering it leaves the registry as it
/// was before (registration only ever uses an identifier no client holds).
pub proof fn lemma_unregister_undoes_register<H>(
    registry: Map<Seq<char>, H>,
    client_id: Seq<char>,
    handle: H,
)
    requires
        !registry.contains_key(client_id),
    ensures
        registry.insert(client_id, handle).remove(client_id) == registry,
{
    assert(registry.insert(client_id, handle).remove(client_id) =~= registry);
}

/// Once a client is registered, every message relayed to it is delivered to
/// it, naming its sender, whoever the sender is.
pub proof fn lemma_registered_recipient_receives<H>(
    registry: Map<Seq<char>, H>,
    client_id: Seq<char>,
    handle: H,
    sender_id: Seq<char>,
    msg: Seq<char>,
)
    ensures
        relay_outcome(registry.insert(client_id, handle).dom(), sender_id, client_id, msg) == Some(
            DeliveryView {
                client_id,
                msg: ServerMessageView::Message { sender_id, msg },
            },
        ),
{
}

/// Once a client is unregistered, nothing relayed to it reaches it: a
/// registered sender is told the recipient was not found, and otherwise the
/// message is dropped.
pub proof fn lemma_unregistered_recipient_unreachable<H>(
    registry: Map<Seq<char>, H>,
    client_id: Seq<char>,
    sender_id: Seq<char>,
    msg: Seq<char>,
)
    ensures
        relay_outcome(registry.remove(client_id).dom(), sender_id, client_id, msg) == (
        if sender_id != client_id && registry.contains_key(sender_id) {
            Some(
                DeliveryView {
                    client_id: sender_id,
                    msg: ServerMessageView::Error { msg: recipient_not_found() },
                },
            )
        } else {
            None
        }),
{
}

/// Every delivery goes to a registered client: relays and error reports never
/// address a client that is not registered.
pub proof fn lemma_deliveries_reach_registered(
    registered: Set<Seq<char>>,
    sender_id: Seq<char>,
    recvr_id: Seq<char>,
    client_id: Seq<char>,
    msg: Seq<char>,
)
    ensures
        relay_outcome(registered, sender_id, recvr_id, msg) matches Some(d) ==> registered.contains(
            d.client_id,
        ),
        error_outcome(registered, client_id, msg) matches Some(d) ==> d.client_id == client_id
            && registered.contains(client_id),
{
}

/// Error routing is complete and exact: an error report for a registered
/// client reaches that client with exactly the reported text, whatever the
/// text; for a client that is not registered nothing is sent.
pub proof fn lemma_error_report_delivered(
    registered: Set<Seq<char>>,
    client_id: Seq<char>,
    msg: Seq<char>,
)
    ensures
        registered.contains(client_id) ==> error_outcome(registered, client_id, msg) == Some(
            DeliveryView { client_id, msg: ServerMessageView::Error { msg } },
        ),
        !registered.contains(client_id) ==> error_outcome(registered, client_id, msg) is None,
{
}

/// Relay routing is complete and exact: a message for a registered recipient
/// reaches it unchanged and names its sender, whatever its text; a message
/// for an unregistered recipient is answered to a registered sender with
/// "Recipient not found", and otherwise dropped.
pub proof fn lemma_relay_delivered(
    registered: Set<Seq<char>>,
    sender_id: Seq<char>,
    recvr_id: Seq<char>,
    msg: Seq<char>,
)
    ensures
        registered.contains(recvr_id) ==> relay_outcome(registered, sender_id, recvr_id, msg)
            == Some(
            DeliveryView { client_id: recvr_id, msg: ServerMessageView::Message { sender_id, msg } },
        ),
        !registered.contains(recvr_id) && registered.contains(sender_id) ==> relay_outcome(
            registered,
            sender_id,
            recvr_id,
            msg,
        ) == Some(
            DeliveryView {
                client_id: sender_id,
                msg: ServerMessageView::Error { msg: "Recipient not found"@ },
            },
        ),
        !registered.contains(recvr_id) && !registered.contains(sender_id) ==> relay_outcome(
            registered,
            sender_id,
            recvr_id,
            msg,
        ) is None,
{
}

} // verus!

//! What a connection's handler does with each message its client sends.

use crate::server_core::connection_manager::RelayError;
use crate::server_core::serialization::{ClientMessage, ServerMessage, ServerMessageView};
use vstd::prelude::*;

verus! {

/// What one incoming message asks of the connection's handler.
pub enum Step {
    /// Write this message back to the connection's own client.
    Reply(ServerMessage),
    /// Ask the manager to relay `msg` to the client `recipient_id`, and wait
    /// for the outcome (see `relay_reply`).
    Relay { recipient_id: String, msg: ServerMessage },
    /// Ask the manager to unregister the client `client_id`.
    Unregister(String),
    /// Nothing to do.
    Ignore,
}

/// The text of the reply to a message that could not be decoded.
pub open spec fn decode_error_text(client_id: Seq<char>, error: Seq<char>) -> Seq<char> {
    "Error deserializing message from "@ + client_id + ": "@ + error
}

/// Decides what a message from the client `client_id` asks for, given the
/// message as decoded (or the text of the decoding error): a message for
/// another client is relayed with this client as its sender, a disconnect
/// unregisters this client, a message that could not be decoded is answered
/// with an error, and anything else is ignored.
pub fn process_msg(client_id: &String, decoded: Result<ClientMessage, String>) -> (step: Step)
    ensures
        match decoded {
            Ok(ClientMessage::Message { recipient_id, msg }) => step matches Step::Relay {
                recipient_id: r,
                msg: m,
            } && r@ == recipient_id@ && m@ == (ServerMessageView::Message {
                sender_id: client_id@,
                msg: msg@,
            }),
            Ok(ClientMessage::Disconnect) => step matches Step::Unregister(id) && id@
                == client_id@,
            Ok(_) => step is Ignore,
            Err(e) => step matches Step::Reply(m) && m@ == (ServerMessageView::Error {
                msg: decode_error_text(client_id@, e@),
            }),
        },
{
    match decoded {
        Ok(ClientMessage::Message { recipient_id, msg }) => relay_msg(client_id, recipient_id, msg),
        Ok(ClientMessage::Disconnect) => disconnect(client_id),
        Ok(_) => Step::Ignore,
        Err(e) => {
            let mut text = String::from_str("Error deserializing message from ");
            text.append(client_id.as_str());
            text.append(": ");
            text.append(e.as_str());
            Step::Reply(ServerMessage::error(text.as_str()))
        },
    }
}

/// The relay request for `msg`, sent by `client_id` to `recipient_id`: the
/// message the recipient is to receive names `client_id` as its sender.
pub fn relay_msg(client_id: &String, recipient_id: String, msg: String) -> (step: Step)
    ensures
        step matches Step::Relay { recipient_id: r, msg: m } && r@ == recipient_id@ && m@ == (
        ServerMessageView::Message { sender_id: client_id@, msg: msg@ }),
{
    Step::Relay { recipient_id, msg: ServerMessage::relayed_msg(client_id.clone(), msg) }
}

/// What to write back to the sender once the manager has answered a relay
/// request: nothing on success, the error's text otherwise.
pub fn relay_reply(outcome: Result<(), RelayError>) -> (reply: Option<ServerMessage>)
    ensures
        match outcome {
            Ok(()) => reply is None,
            Err(e) => reply matches Some(m) && m@ == (ServerMessageView::Error { msg: e.msg@ }),
        },
{
    match outcome {
        Ok(()) => None,
        Err(e) => Some(ServerMessage::error(e.msg.as_str())),
    }
}

/// The request that unregisters the client `client_id`.
pub fn disconnect(client_id: &String) -> (step: Step)
    ensures
        step matches Step::Unregister(id) && id@ == client_id@,
{
    Step::Unregister(client_id.clone())
}

/// The reply to an undecodable message names the client and ends with the
/// decoding error's text, unchanged.
pub proof fn lemma_decode_error_text_carries_error(client_id: Seq<char>, error: Seq<char>)
    ensures
        ({
            let t = decode_error_text(client_id, error);
            let p = "Error deserializing message from "@.len();
            &&& t.len() == p + client_id.len() + 2 + error.len()
            &&& t.subrange(p as int, (p + client_id.len()) as int) == client_id
            &&& t.subrange(t.len() - error.len(), t.len() as int) == error
        }),
{
    reveal_strlit(": ");
    let t = decode_error_text(client_id, error);
    let p = "Error deserializing message from "@.len();
    assert(t.subrange(p as int, (p + client_id.len()) as int) =~= client_id);
    assert(t.subrange(t.len() - error.len(), t.len() as int) =~= error);
}

} // verus!

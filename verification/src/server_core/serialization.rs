//! Messages exchanged with clients by the server core.

use vstd::prelude::*;

pub use crate::serialization::{ServerMessage, ServerMessageView};

verus! {

/// A message sent from a client to the server.
#[derive(Debug, Clone, PartialEq, Eq)]
pub enum ClientMessage {
    /// Contains the client's identifier.
    ClientId { client_id: String },
    /// A message intended for the client `recipient_id`.
    Message { recipient_id: String, msg: String },
    /// Reports an error with an accompanying message.
    Error { msg: String },
    /// The client is disconnecting.
    Disconnect,
}

/// A `ClientMessage` with its strings taken as character sequences.
pub enum ClientMessageView {
    ClientId { client_id: Seq<char> },
    Message { recipient_id: Seq<char>, msg: Seq<char> },
    Error { msg: Seq<char> },
    Disconnect,
}

impl View for ClientMessage {
    type V = ClientMessageView;

    open spec fn view(&self) -> ClientMessageView {
        match self {
            ClientMessage::ClientId { client_id } => ClientMessageView::ClientId {
                client_id: client_id@,
            },
            ClientMessage::Message { recipient_id, msg } => ClientMessageView::Message {
                recipient_id: recipient_id@,
                msg: msg@,
            },
            ClientMessage::Error { msg } => ClientMessageView::Error { msg: msg@ },
            ClientMessage::Disconnect => ClientMessageView::Disconnect,
        }
    }
}

} // verus!

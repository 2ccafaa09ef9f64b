//! Messages exchanged with clients. Clients send `ClientMessage`s and receive
//! `ServerMessage`s; both travel as JSON text frames (the JSON encoding is
//! done at the edge, where the frames are read and written).

use vstd::prelude::*;

verus! {

/// A message sent from a client to the server.
#[derive(Debug, Clone, PartialEq, Eq)]
pub enum ClientMessage {
    /// Contains the client's identifier.
    ClientId { client_id: String },
    /// A message intended for another client, `recvr_id`.
    Message { recvr_id: String, msg: String },
    /// Reports an error with an accompanying message.
    Error { msg: String },
    /// The client is disconnecting.
    Disconnect,
}

/// A message sent from the server to a client.
#[derive(Debug, Clone, PartialEq, Eq)]
pub enum ServerMessage {
    /// The identifier the server assigned to the client.
    ClientId { client_id: String },
    /// A message relayed from the client `sender_id`.
    Message { sender_id: String, msg: String },
    /// Reports an error with an accompanying message.
    Error { msg: String },
}

/// A `ClientMessage` with its strings taken as character sequences.
pub enum ClientMessageView {
    ClientId { client_id: Seq<char> },
    Message { recvr_id: Seq<char>, msg: Seq<char> },
    Error { msg: Seq<char> },
    Disconnect,
}

/// A `ServerMessage` with its strings taken as character sequences.
pub enum ServerMessageView {
    ClientId { client_id: Seq<char> },
    Message { sender_id: Seq<char>, msg: Seq<char> },
    Error { msg: Seq<char> },
}

impl View for ClientMessage {
    type V = ClientMessageView;

    open spec fn view(&self) -> ClientMessageView {
        match self {
            ClientMessage::ClientId { client_id } => ClientMessageView::ClientId {
                client_id: client_id@,
            },
            ClientMessage::Message { recvr_id, msg } => ClientMessageView::Message {
                recvr_id: recvr_id@,
                msg: msg@,
            },
            ClientMessage::Error { msg } => ClientMessageView::Error { msg: msg@ },
            ClientMessage::Disconnect => ClientMessageView::Disconnect,
        }
    }
}

impl View for ServerMessage {
    type V = ServerMessageView;

    open spec fn view(&self) -> ServerMessageView {
        match self {
            ServerMessage::ClientId { client_id } => ServerMessageView::ClientId {
                client_id: client_id@,
            },
            ServerMessage::Message { sender_id, msg } => ServerMessageView::Message {
                sender_id: sender_id@,
                msg: msg@,
            },
            ServerMessage::Error { msg } => ServerMessageView::Error { msg: msg@ },
        }
    }
}

impl ServerMessage {
    /// The message that tells a client the identifier assigned to it.
    pub fn client_id(client_id: String) -> (m: ServerMessage)
        ensures
            m@ == (ServerMessageView::ClientId { client_id: client_id@ }),
    {
        ServerMessage::ClientId { client_id }
    }

    /// The message that relays `msg`, sent by the client `sender_id`.
    pub fn relayed_msg(sender_id: String, msg: String) -> (m: ServerMessage)
        ensures
            m@ == (ServerMessageView::Message { sender_id: sender_id@, msg: msg@ }),
    {
        ServerMessage::Message { sender_id, msg }
    }

    /// The message that reports the error `msg` to a client.
    pub fn error(msg: &str) -> (m: ServerMessage)
        ensures
            m@ == (ServerMessageView::Error { msg: msg@ }),
    {
        ServerMessage::Error { msg: String::from_str(msg) }
    }
}

} // verus!

//! What a connection's stream handler asks of the manager for each message its
//! client sends.

use crate::connection_manager::Command;
use crate::serialization::ClientMessage;
use vstd::prelude::*;

verus! {

/// The stream handler of one connection, identified by its client's
/// identifier.
pub struct WsStreamHandler {
    pub client_id: String,
}

impl WsStreamHandler {
    /// The command a client's incoming message asks for, given the message as
    /// decoded (or the text of the decoding error): see `process_msg`; a
    /// message that could not be decoded is reported to the client.
    pub fn handle_frame<S>(&self, decoded: Result<ClientMessage, String>) -> (cmd: Option<
        Command<S>,
    >)
        ensures
            match decoded {
                Ok(ClientMessage::Message { recvr_id, msg }) => cmd matches Some(
                    Command::RelayMessage { sender_id: s, recvr_id: r, msg: m },
                ) && s@ == self.client_id@ && r@ == recvr_id@ && m@ == msg@,
                Ok(ClientMessage::Disconnect) => cmd matches Some(Command::Unregister(id)) && id@
                    == self.client_id@,
                Ok(_) => cmd is None,
                Err(e) => cmd matches Some(Command::ErrorMessage { client_id: c, msg: m }) && c@
                    == self.client_id@ && m@ == "Error deserializing client's message: "@ + e@,
            },
    {
        match decoded {
            Ok(msg) => self.process_msg(msg),
            Err(e) => {
                let mut text = String::from_str("Error deserializing client's message: ");
                text.append(e.as_str());
                Some(self.error(text))
            },
        }
    }

    /// The command a decoded message asks for: a message for another client
    /// is relayed with this client as its sender, a disconnect unregisters
    /// this client, anything else asks for nothing.
    pub fn process_msg<S>(&self, msg: ClientMessage) -> (cmd: Option<Command<S>>)
        ensures
            match msg {
                ClientMessage::Message { recvr_id, msg } => cmd matches Some(
                    Command::RelayMessage { sender_id: s, recvr_id: r, msg: m },
                ) && s@ == self.client_id@ && r@ == recvr_id@ && m@ == msg@,
                ClientMessage::Disconnect => cmd matches Some(Command::Unregister(id)) && id@
                    == self.client_id@,
                _ => cmd is None,
            },
    {
        match msg {
            ClientMessage::Message { recvr_id, msg } => Some(self.relay_msg(recvr_id, msg)),
            ClientMessage::Disconnect => Some(self.disconnect()),
            _ => None,
        }
    }

    /// The command relaying `msg` from this client to `recvr_id`.
    pub fn relay_msg<S>(&self, recvr_id: String, msg: String) -> (cmd: Command<S>)
        ensures
            cmd matches Command::RelayMessage { sender_id: s, recvr_id: r, msg: m } && s@
                == self.client_id@ && r@ == recvr_id@ && m@ == msg@,
    {
        Command::RelayMessage { sender_id: self.client_id.clone(), recvr_id, msg }
    }

    /// The command unregistering this client.
    pub fn disconnect<S>(&self) -> (cmd: Command<S>)
        ensures
            cmd matches Command::Unregister(id) && id@ == self.client_id@,
    {
        Command::Unregister(self.client_id.clone())
    }

    /// The command that sends the error `msg` to this client.
    pub fn error<S>(&self, msg: String) -> (cmd: Command<S>)
        ensures
            cmd matches Command::ErrorMessage { client_id: c, msg: m } && c@ == self.client_id@
                && m@ == msg@,
    {
        Command::ErrorMessage { client_id: self.client_id.clone(), msg }
    }
}

} // verus!

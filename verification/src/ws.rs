//! The WebSocket frames the server itself composes (as opposed to the JSON
//! text of a `ServerMessage`, which is serialized at the edge).

use vstd::prelude::*;

verus! {

/// Close code for "going away": the endpoint is shutting down.
pub const CLOSE_AWAY: u16 = 1001;

/// The payload of a close frame: a close code and a human-readable reason.
#[derive(Debug, Clone, PartialEq, Eq)]
pub struct CloseFrame {
    pub code: u16,
    pub reason: String,
}

/// A WebSocket frame sent to a client.
#[derive(Debug, Clone, PartialEq, Eq)]
pub enum WsMessage {
    /// A text frame.
    Text(String),
    /// A close frame, with or without a payload.
    Close(Option<CloseFrame>),
}

/// What a frame carries, with strings taken as character sequences.
pub enum WsMessageView {
    Text(Seq<char>),
    Close(Option<(u16, Seq<char>)>),
}

impl View for WsMessage {
    type V = WsMessageView;

    open spec fn view(&self) -> WsMessageView {
        match self {
            WsMessage::Text(t) => WsMessageView::Text(t@),
            WsMessage::Close(None) => WsMessageView::Close(None),
            WsMessage::Close(Some(f)) => WsMessageView::Close(Some((f.code, f.reason@))),
        }
    }
}

} // verus!

use repeater::server_core::command::Command;
use repeater::server_core::conn_mngr::ConnectionManager as ContentManager;
use repeater::server_core::connection_handler::{process_msg, relay_reply, Step};
use repeater::server_core::connection_manager::{close_frame, ConnectionManager, Handled, RelayError};
use repeater::server_core::serialization::{ClientMessage, ServerMessage};
use repeater::server_core::ws_stream_handler::WsStreamHandler;
use repeater::connection_manager::{Command as ContentCommand, Handled as ContentHandled};
use repeater::serialization::ClientMessage as ContentClientMessage;
use repeater::ids::generate_rand_id;
use repeater::ws::{CloseFrame, WsMessage};

fn s(x: &str) -> String {
    x.to_string()
}

type Cmd = Command<(), &'static str, u8>;

#[test]
fn relay_to_registered_client_is_ok() {
    let mut m = ConnectionManager::new();
    let msg = m.register_connection(s("AAAAAAAA"), 1u32);
    assert_eq!(msg, ServerMessage::ClientId { client_id: s("AAAAAAAA") });
    let cmd: Cmd = Command::RelayMessage { client_id: s("AAAAAAAA"), msg: "frame", result_tx: 3 };
    match m.handle_command(cmd) {
        Handled::Relay { client_id, msg, result_tx, outcome } => {
            assert_eq!(client_id, "AAAAAAAA");
            assert_eq!(msg, "frame");
            assert_eq!(result_tx, 3);
            assert_eq!(outcome, Ok(()));
        }
        _ => panic!("expected a relay"),
    }
    assert_eq!(m.client_mut(&s("AAAAAAAA")).map(|h| *h), Some(1));
}

#[test]
fn relay_to_missing_client_fails() {
    let mut m: ConnectionManager<u32> = ConnectionManager::new();
    let cmd: Cmd = Command::RelayMessage { client_id: s("NOBODYXX"), msg: "frame", result_tx: 0 };
    match m.handle_command(cmd) {
        Handled::Relay { outcome, .. } => assert_eq!(
            outcome,
            Err(RelayError { msg: s("Failed to send message: recipient not found") })
        ),
        _ => panic!("expected a relay"),
    }
}

#[test]
fn unregister_and_disconnect() {
    let mut m = ConnectionManager::new();
    m.register_connection(s("AAAAAAAA"), 1u32);
    m.register_connection(s("BBBBBBBB"), 2u32);
    match m.handle_command(Cmd::Unregister(s("AAAAAAAA"))) {
        Handled::Unregistered { client_id, handle } => {
            assert_eq!(client_id, "AAAAAAAA");
            assert_eq!(handle, Some(1));
        }
        _ => panic!("expected an unregistration"),
    }
    assert!(!m.contains_key(&s("AAAAAAAA")));
    let all = m.disconnect_clients();
    assert_eq!(all, vec![(s("BBBBBBBB"), 2)]);
    assert!(!m.contains_key(&s("BBBBBBBB")));
    assert_eq!(
        close_frame(),
        WsMessage::Close(Some(CloseFrame { code: 1001, reason: s("Server is closing") }))
    );
}

#[test]
fn free_id_draws_are_unregistered() {
    let mut m = ConnectionManager::new();
    for _ in 0..20 {
        let id = loop {
            if let Ok(id) = m.claim_if_free(generate_rand_id().id) {
                break id;
            }
        };
        assert!(!m.contains_key(&id));
        m.register_connection(id.clone(), 0u8);
        assert!(m.contains_key(&id));
    }
}

#[test]
fn handler_relays_with_own_id_as_sender() {
    let id = s("AAAAAAAA");
    let m = ClientMessage::Message { recipient_id: s("BBBBBBBB"), msg: s("hey") };
    match process_msg(&id, Ok(m)) {
        Step::Relay { recipient_id, msg } => {
            assert_eq!(recipient_id, "BBBBBBBB");
            assert_eq!(msg, ServerMessage::Message { sender_id: s("AAAAAAAA"), msg: s("hey") });
        }
        _ => panic!("expected a relay"),
    }
}

#[test]
fn handler_disconnect_and_ignore() {
    let id = s("AAAAAAAA");
    match process_msg(&id, Ok(ClientMessage::Disconnect)) {
        Step::Unregister(x) => assert_eq!(x, "AAAAAAAA"),
        _ => panic!("expected an unregistration"),
    }
    assert!(matches!(process_msg(&id, Ok(ClientMessage::Error { msg: s("e") })), Step::Ignore));
    assert!(matches!(
        process_msg(&id, Ok(ClientMessage::ClientId { client_id: s("e") })),
        Step::Ignore
    ));
}

#[test]
fn handler_reports_undecodable_message() {
    let id = s("AAAAAAAA");
    match process_msg(&id, Err(s("missing field `msg`"))) {
        Step::Reply(m) => assert_eq!(
            m,
            ServerMessage::Error {
                msg: s("Error deserializing message from AAAAAAAA: missing field `msg`")
            }
        ),
        _ => panic!("expected a reply"),
    }
}

#[test]
fn relay_reply_forwards_error_text() {
    assert_eq!(relay_reply(Ok(())), None);
    let e = RelayError { msg: s("Failed to send message: recipient not found") };
    assert_eq!(
        relay_reply(Err(e)),
        Some(ServerMessage::Error { msg: s("Failed to send message: recipient not found") })
    );
}

#[test]
fn missing_recipient_round_trip() {
    let m: ConnectionManager<u32> = ConnectionManager::new();
    let outcome = m.relay_msg(&s("NOBODYXX"));
    assert_eq!(
        relay_reply(outcome),
        Some(ServerMessage::error("Failed to send message: recipient not found"))
    );
}

#[test]
fn stream_handler_commands() {
    let h = WsStreamHandler { client_id: s("AAAAAAAA") };
    let m = ContentClientMessage::Message { recvr_id: s("BBBBBBBB"), msg: s("m") };
    match h.handle_frame::<()>(Ok(m)) {
        Some(ContentCommand::RelayMessage { sender_id, recvr_id, msg }) => {
            assert_eq!((sender_id.as_str(), recvr_id.as_str(), msg.as_str()), ("AAAAAAAA", "BBBBBBBB", "m"));
        }
        _ => panic!("expected a relay"),
    }
    match h.handle_frame::<()>(Ok(ContentClientMessage::Disconnect)) {
        Some(ContentCommand::Unregister(x)) => assert_eq!(x, "AAAAAAAA"),
        _ => panic!("expected an unregistration"),
    }
    assert!(h.handle_frame::<()>(Ok(ContentClientMessage::Error { msg: s("x") })).is_none());
    match h.handle_frame::<()>(Err(s("EOF while parsing"))) {
        Some(ContentCommand::ErrorMessage { client_id, msg }) => {
            assert_eq!(client_id, "AAAAAAAA");
            assert_eq!(msg, "Error deserializing client's message: EOF while parsing");
        }
        _ => panic!("expected an error report"),
    }
}

#[test]
fn content_manager_routes() {
    let mut m = ContentManager::new();
    m.register_connection(s("AAAAAAAA"), 1u32);
    let d = m.relay_msg(s("AAAAAAAA"), s("BBBBBBBB"), s("m")).unwrap();
    assert_eq!(d.client_id, "AAAAAAAA");
    assert_eq!(d.msg, ServerMessage::Error { msg: s("Recipient not found") });
    let d = m.send_err_msg(s("AAAAAAAA"), s("Malformed request: x")).unwrap();
    assert_eq!(d.msg, ServerMessage::Error { msg: s("Malformed request: x") });
    match m.handle_command::<()>(ContentCommand::Unregister(s("AAAAAAAA"))) {
        ContentHandled::Unregistered { handle, .. } => assert_eq!(handle, Some(1)),
        _ => panic!("expected an unregistration"),
    }
    assert!(m.send_err_msg(s("AAAAAAAA"), s("x")).is_none());
    m.register_connection(s("CCCCCCCC"), 3u32);
    assert_eq!(m.unregister_connection(&s("CCCCCCCC")), Some(3));
    m.register_connection(s("DDDDDDDD"), 4u32);
    if let Some(h) = m.client_mut(&s("DDDDDDDD")) {
        *h = 5;
    }
    assert_eq!(m.shutdown_clients(), vec![(s("DDDDDDDD"), 5)]);
    assert_eq!(m.claim_if_free(s("DDDDDDDD")), Ok(s("DDDDDDDD")));
}

#[test]
fn claim_refuses_registered_id() {
    let mut m = ConnectionManager::new();
    m.register_connection(s("AAAAAAAA"), 1u32);
    assert_eq!(m.claim_if_free(s("AAAAAAAA")), Err(s("AAAAAAAA")));
    assert_eq!(m.claim_if_free(s("ZZZZZZZZ")), Ok(s("ZZZZZZZZ")));
}

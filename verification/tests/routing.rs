use repeater::clients::ClientTable;
use repeater::connection_manager::{
    claim_if_free, closing_frames, handle_client_message, handle_command, register_connection,
    relay_msg, send_err_msg, shutdown_clients, Command, Handled,
};
use repeater::ids::generate_rand_id;
use repeater::serialization::{ClientMessage, ServerMessage};
use repeater::ws::WsMessage;

fn s(x: &str) -> String {
    x.to_string()
}

fn table(ids: &[&str]) -> ClientTable<u32> {
    let mut t = ClientTable::new();
    for (i, id) in ids.iter().enumerate() {
        t.insert(s(id), i as u32);
    }
    t
}

#[test]
fn relay_to_registered_recipient() {
    let t = table(&["AAAAAAAA", "BBBBBBBB"]);
    let d = relay_msg(&t, s("AAAAAAAA"), s("BBBBBBBB"), s("hello")).unwrap();
    assert_eq!(d.client_id, "BBBBBBBB");
    assert_eq!(
        d.msg,
        ServerMessage::Message { sender_id: s("AAAAAAAA"), msg: s("hello") }
    );
}

#[test]
fn relay_to_missing_recipient_reports_to_sender() {
    let t = table(&["AAAAAAAA"]);
    let d = relay_msg(&t, s("AAAAAAAA"), s("NOBODYXX"), s("hello")).unwrap();
    assert_eq!(d.client_id, "AAAAAAAA");
    assert_eq!(d.msg, ServerMessage::Error { msg: s("Recipient not found") });
}

#[test]
fn relay_with_neither_registered_goes_nowhere() {
    let t = table(&["CCCCCCCC"]);
    assert!(relay_msg(&t, s("AAAAAAAA"), s("BBBBBBBB"), s("hello")).is_none());
}

#[test]
fn error_message_reaches_registered_client_only() {
    let t = table(&["AAAAAAAA"]);
    let d = send_err_msg(&t, s("AAAAAAAA"), s("bad")).unwrap();
    assert_eq!(d.client_id, "AAAAAAAA");
    assert_eq!(d.msg, ServerMessage::Error { msg: s("bad") });
    assert!(send_err_msg(&t, s("BBBBBBBB"), s("bad")).is_none());
}

#[test]
fn handle_command_unregister_removes() {
    let mut t = table(&["AAAAAAAA", "BBBBBBBB"]);
    match handle_command::<(), u32>(Command::Unregister(s("AAAAAAAA")), &mut t) {
        Handled::Unregistered { client_id, handle } => {
            assert_eq!(client_id, "AAAAAAAA");
            assert_eq!(handle, Some(0));
        }
        _ => panic!("expected an unregistration"),
    }
    assert!(!t.contains_key(&s("AAAAAAAA")));
    match handle_command::<(), u32>(Command::Unregister(s("AAAAAAAA")), &mut t) {
        Handled::Unregistered { handle, .. } => assert_eq!(handle, None),
        _ => panic!("expected an unregistration"),
    }
}

#[test]
fn handle_command_register_and_relay() {
    let mut t = table(&["AAAAAAAA", "BBBBBBBB"]);
    match handle_command::<&str, u32>(Command::Register("conn"), &mut t) {
        Handled::Register(c) => assert_eq!(c, "conn"),
        _ => panic!("expected a registration"),
    }
    let cmd = Command::RelayMessage { sender_id: s("BBBBBBBB"), recvr_id: s("AAAAAAAA"), msg: s("x") };
    match handle_command::<&str, u32>(cmd, &mut t) {
        Handled::Deliver(Some(d)) => {
            assert_eq!(d.client_id, "AAAAAAAA");
            assert_eq!(d.msg, ServerMessage::Message { sender_id: s("BBBBBBBB"), msg: s("x") });
        }
        _ => panic!("expected a delivery"),
    }
    let cmd = Command::ErrorMessage { client_id: s("ZZZZZZZZ"), msg: s("x") };
    match handle_command::<&str, u32>(cmd, &mut t) {
        Handled::Deliver(None) => {}
        _ => panic!("expected no delivery"),
    }
    assert!(t.contains_key(&s("AAAAAAAA")) && t.contains_key(&s("BBBBBBBB")));
}

#[test]
fn registration_with_free_id() {
    let mut t = table(&["AAAAAAAA"]);
    let id = loop {
        if let Ok(id) = claim_if_free(&t, generate_rand_id().id) {
            break id;
        }
    };
    assert!(!t.contains_key(&id));
    assert_eq!(id.len(), 8);
    let msg = register_connection(&mut t, id.clone(), 42);
    assert_eq!(msg, ServerMessage::ClientId { client_id: id.clone() });
    assert!(t.contains_key(&id));
}

#[test]
fn registered_client_then_receives_relays() {
    let mut t = table(&["AAAAAAAA"]);
    register_connection(&mut t, s("NEWCLIEN"), 7);
    let d = relay_msg(&t, s("AAAAAAAA"), s("NEWCLIEN"), s("hi")).unwrap();
    assert_eq!(d.client_id, "NEWCLIEN");
    t.remove(&s("NEWCLIEN"));
    let d = relay_msg(&t, s("AAAAAAAA"), s("NEWCLIEN"), s("hi")).unwrap();
    assert_eq!(d.client_id, "AAAAAAAA");
    assert_eq!(d.msg, ServerMessage::Error { msg: s("Recipient not found") });
}

#[test]
fn client_message_to_relay_command() {
    let id = s("AAAAAAAA");
    let m = ClientMessage::Message { recvr_id: s("BBBBBBBB"), msg: s("yo") };
    match handle_client_message::<()>(&id, Ok(m)) {
        Some(Command::RelayMessage { sender_id, recvr_id, msg }) => {
            assert_eq!((sender_id.as_str(), recvr_id.as_str(), msg.as_str()), ("AAAAAAAA", "BBBBBBBB", "yo"));
        }
        _ => panic!("expected a relay"),
    }
}

#[test]
fn client_disconnect_to_unregister() {
    let id = s("AAAAAAAA");
    match handle_client_message::<()>(&id, Ok(ClientMessage::Disconnect)) {
        Some(Command::Unregister(x)) => assert_eq!(x, "AAAAAAAA"),
        _ => panic!("expected an unregistration"),
    }
}

#[test]
fn other_client_messages_ignored() {
    let id = s("AAAAAAAA");
    assert!(handle_client_message::<()>(&id, Ok(ClientMessage::ClientId { client_id: s("Q") })).is_none());
    assert!(handle_client_message::<()>(&id, Ok(ClientMessage::Error { msg: s("Q") })).is_none());
}

#[test]
fn malformed_client_message_reported() {
    let id = s("AAAAAAAA");
    match handle_client_message::<()>(&id, Err(s("expected value at line 1 column 1"))) {
        Some(Command::ErrorMessage { client_id, msg }) => {
            assert_eq!(client_id, "AAAAAAAA");
            assert_eq!(msg, "Malformed request: expected value at line 1 column 1");
        }
        _ => panic!("expected an error report"),
    }
}

#[test]
fn shutdown_frames_and_drain() {
    assert_eq!(
        closing_frames(),
        vec![WsMessage::Text(s("Server is closing")), WsMessage::Close(None)]
    );
    let mut t = table(&["AAAAAAAA", "BBBBBBBB"]);
    let mut all = shutdown_clients(&mut t);
    all.sort();
    assert_eq!(all, vec![(s("AAAAAAAA"), 0), (s("BBBBBBBB"), 1)]);
    assert!(!t.contains_key(&s("AAAAAAAA")));
}

#[test]
fn server_message_constructors() {
    assert_eq!(ServerMessage::client_id(s("ID")), ServerMessage::ClientId { client_id: s("ID") });
    assert_eq!(
        ServerMessage::relayed_msg(s("A"), s("m")),
        ServerMessage::Message { sender_id: s("A"), msg: s("m") }
    );
    assert_eq!(ServerMessage::error("oops"), ServerMessage::Error { msg: s("oops") });
}

#[test]
fn claiming_taken_and_free_ids() {
    let t = table(&["AAAAAAAA"]);
    assert_eq!(claim_if_free(&t, s("AAAAAAAA")), Err(s("AAAAAAAA")));
    assert_eq!(claim_if_free(&t, s("BBBBBBBB")), Ok(s("BBBBBBBB")));
}

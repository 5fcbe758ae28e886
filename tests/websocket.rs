use teams_websocket::messages::MeetingAction;
use teams_websocket::{
    AppIdentifiers, ClientMessage, ClientMessageParameter, ClientMessageParameterType, ErrorKind,
    Inbound, ServerMessage, TeamsWebsocket, DEFAULT_ADDRESS,
};

fn identifier() -> AppIdentifiers {
    AppIdentifiers {
        protocol_version: "1.0",
        manufacturer: "TestManufacturer",
        device: "TestDevice",
        app: "TestApp",
        app_version: "1.0",
    }
}

fn echo(request_id: Option<i32>, frame: &str) -> ServerMessage {
    ServerMessage {
        request_id,
        response: Some(format!("Echo: {}", frame)),
        error_msg: None,
        token_refresh: None,
        meeting_update: None,
    }
}

#[test]
fn test_teams_websocket_new() {
    let identifier = identifier();
    let websocket = TeamsWebsocket::new(identifier.clone(), None, None);
    assert_eq!(*websocket.identifier(), identifier);
    assert!(!websocket.is_connected());
    assert!(websocket.token().is_none());
    assert_eq!(websocket.request_id(), 0);
}

#[test]
fn test_teams_websocket_connect() {
    let url = format!("ws://{}", "127.0.0.1:40123");
    let mut websocket = TeamsWebsocket::new(identifier(), None, Some(url));
    let address = websocket.connect_address();
    assert!(address.is_ok());
    let result = websocket.connect(Ok(()));
    assert!(result.is_ok());
    assert!(websocket.is_connected());
}

#[test]
fn test_teams_websocket_send_receive() {
    let url = format!("ws://{}", "127.0.0.1:40124");
    let mut websocket = TeamsWebsocket::new(identifier(), None, Some(url));
    websocket.connect(Ok(())).unwrap();

    let client_message = ClientMessage::new(MeetingAction::BlurBackground, None);
    let frame = websocket.send(client_message).unwrap();
    websocket.finish_send(Ok(())).unwrap();

    let server_message = websocket.receive(Inbound::Decoded(echo(Some(0), &frame))).unwrap();
    assert_eq!(
        server_message.response,
        Some("Echo: {\"action\":\"blur-background\",\"parameters\":null,\"requestId\":0}".to_string())
    );
}

#[test]
fn new_keeps_token_and_address() {
    let websocket = TeamsWebsocket::new(
        identifier(),
        Some("secret".to_string()),
        Some("ws://localhost:9000".to_string()),
    );
    assert_eq!(websocket.token().as_deref(), Some("secret"));
    assert_eq!(websocket.url(), "ws://localhost:9000");
    assert_eq!(websocket.request_id(), 0);
    assert!(!websocket.is_connected());
}

#[test]
fn new_defaults_to_local_address() {
    let websocket = TeamsWebsocket::new(identifier(), None, None);
    assert_eq!(websocket.url(), DEFAULT_ADDRESS);
    assert_eq!(DEFAULT_ADDRESS, "ws://127.0.0.1:8124");
}

#[test]
fn connect_address_attaches_identity_and_empty_token() {
    let websocket = TeamsWebsocket::new(identifier(), None, None);
    assert_eq!(
        websocket.connect_address().unwrap(),
        "ws://127.0.0.1:8124/?protocol-version=1.0&manufacturer=TestManufacturer&device=TestDevice&app=TestApp&app-version=1.0&token="
    );
}

#[test]
fn connect_address_encodes_token() {
    let websocket = TeamsWebsocket::new(identifier(), Some("a b&c".to_string()), None);
    let address = websocket.connect_address().unwrap();
    assert!(address.ends_with("&token=a+b%26c"));
}

#[test]
fn connect_address_rejects_malformed_base() {
    let websocket = TeamsWebsocket::new(identifier(), None, Some("not a url".to_string()));
    let err = websocket.connect_address().unwrap_err();
    assert_eq!(err.kind, ErrorKind::AddressError);
    assert!(!err.message.is_empty());
}

#[test]
fn failed_handshake_stays_disconnected() {
    let mut websocket = TeamsWebsocket::new(identifier(), None, None);
    let err = websocket.connect(Err("refused".to_string())).unwrap_err();
    assert_eq!(err.kind, ErrorKind::ConnectError);
    assert_eq!(err.message, "refused");
    assert!(!websocket.is_connected());
}

#[test]
fn reconnect_while_connected_stays_connected() {
    let mut websocket = TeamsWebsocket::new(identifier(), None, None);
    websocket.connect(Ok(())).unwrap();
    websocket.send(ClientMessage::new(MeetingAction::Mute, None)).unwrap();
    websocket.connect(Ok(())).unwrap();
    assert!(websocket.is_connected());
    assert_eq!(websocket.request_id(), 1);
}

#[test]
fn disconnected_operations_fail_and_keep_counter() {
    let mut websocket = TeamsWebsocket::new(identifier(), None, None);
    let err = websocket.send(ClientMessage::new(MeetingAction::Mute, None)).unwrap_err();
    assert_eq!(err.kind, ErrorKind::NotConnectedError);
    assert_eq!(err.message, "socket not connected");
    assert_eq!(websocket.request_id(), 0);
    let err = websocket.receive(Inbound::Elapsed).unwrap_err();
    assert_eq!(err.kind, ErrorKind::NotConnectedError);
    let err = websocket.close(Ok(())).unwrap_err();
    assert_eq!(err.kind, ErrorKind::NotConnectedError);
    assert_eq!(websocket.ensure_connected().unwrap_err().kind, ErrorKind::NotConnectedError);
    assert_eq!(websocket.request_id(), 0);
    assert!(!websocket.is_connected());
}

#[test]
fn request_ids_count_up_in_call_order() {
    let mut websocket = TeamsWebsocket::new(identifier(), None, None);
    websocket.connect(Ok(())).unwrap();
    let actions = [MeetingAction::Mute, MeetingAction::ToggleVideo, MeetingAction::React];
    for (i, action) in actions.iter().enumerate() {
        let mut message = ClientMessage::new(*action, None);
        message.request_id = Some(77);
        let frame = websocket.send(message).unwrap();
        assert!(frame.ends_with(&format!(",\"requestId\":{}}}", i)));
    }
    assert_eq!(websocket.request_id(), 3);
}

#[test]
fn failed_write_still_consumes_identifier() {
    let mut websocket = TeamsWebsocket::new(identifier(), None, None);
    websocket.connect(Ok(())).unwrap();
    websocket.send(ClientMessage::new(MeetingAction::Mute, None)).unwrap();
    let err = websocket.finish_send(Err("broken pipe".to_string())).unwrap_err();
    assert_eq!(err.kind, ErrorKind::SendError);
    assert_eq!(err.message, "broken pipe");
    let frame = websocket.send(ClientMessage::new(MeetingAction::Unmute, None)).unwrap();
    assert_eq!(frame, "{\"action\":\"unmute\",\"parameters\":null,\"requestId\":1}");
}

#[test]
fn first_blur_background_frame() {
    let mut websocket = TeamsWebsocket::new(identifier(), None, None);
    websocket.connect(Ok(())).unwrap();
    let frame = websocket.send(ClientMessage::new(MeetingAction::BlurBackground, None)).unwrap();
    assert_eq!(frame, "{\"action\":\"blur-background\",\"parameters\":null,\"requestId\":0}");
}

#[test]
fn reaction_frame_carries_parameter() {
    let mut websocket = TeamsWebsocket::new(identifier(), None, None);
    websocket.connect(Ok(())).unwrap();
    let parameter = ClientMessageParameter::new(ClientMessageParameterType::ReactLike);
    let frame = websocket.send(ClientMessage::new(MeetingAction::React, Some(parameter))).unwrap();
    assert_eq!(
        frame,
        "{\"action\":\"send-reaction\",\"parameters\":{\"type\":\"like\"},\"requestId\":0}"
    );
}

#[test]
fn connect_send_receive_close_scenario() {
    let mut websocket =
        TeamsWebsocket::new(identifier(), None, Some("ws://127.0.0.1:40125".to_string()));
    assert!(websocket.connect_address().is_ok());
    websocket.connect(Ok(())).unwrap();
    assert!(websocket.is_connected());
    let frame = websocket.send(ClientMessage::new(MeetingAction::QueryMeetingState, None)).unwrap();
    websocket.finish_send(Ok(())).unwrap();
    let reply = websocket.receive(Inbound::Decoded(echo(Some(0), &frame))).unwrap();
    assert_eq!(reply.request_id, Some(0));
    websocket.close(Ok(())).unwrap();
    assert!(!websocket.is_connected());
    let err = websocket.send(ClientMessage::new(MeetingAction::QueryMeetingState, None)).unwrap_err();
    assert_eq!(err.kind, ErrorKind::NotConnectedError);
}

#[test]
fn timeout_leaves_channel_usable() {
    let mut websocket = TeamsWebsocket::new(identifier(), None, None);
    websocket.connect(Ok(())).unwrap();
    let err = websocket.receive(Inbound::Elapsed).unwrap_err();
    assert_eq!(err.kind, ErrorKind::TimeoutError);
    assert!(websocket.is_connected());
    let reply = websocket.receive(Inbound::Decoded(echo(Some(4), "x"))).unwrap();
    assert_eq!(reply.request_id, Some(4));
}

#[test]
fn receive_maps_each_transport_outcome() {
    let mut websocket = TeamsWebsocket::new(identifier(), None, None);
    websocket.connect(Ok(())).unwrap();
    assert_eq!(
        websocket.receive(Inbound::EndOfStream).unwrap_err().kind,
        ErrorKind::ConnectionClosedError
    );
    let err = websocket.receive(Inbound::ReadFailed("reset".to_string())).unwrap_err();
    assert_eq!(err.kind, ErrorKind::TransportError);
    assert_eq!(err.message, "reset");
    let err = websocket.receive(Inbound::Undecodable("binary frame".to_string())).unwrap_err();
    assert_eq!(err.kind, ErrorKind::DecodeError);
    assert_eq!(err.message, "binary frame");
}

#[test]
fn failed_close_keeps_channel() {
    let mut websocket = TeamsWebsocket::new(identifier(), None, None);
    websocket.connect(Ok(())).unwrap();
    let err = websocket.close(Err("io".to_string())).unwrap_err();
    assert_eq!(err.kind, ErrorKind::CloseError);
    assert!(websocket.is_connected());
    websocket.close(Ok(())).unwrap();
    assert_eq!(websocket.close(Ok(())).unwrap_err().kind, ErrorKind::NotConnectedError);
}
